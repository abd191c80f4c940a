//! The argument lists handed to the host's "open browser" command: which
//! browser application to use and, for a URL launch, the `-a <app> <url>`
//! shape. The spawning itself, and the environment-variable fallback for an
//! unnamed browser, live outside this library.

use crate::text::str_eq;
use vstd::prelude::*;
use vstd::string::StringExecFns;

verus! {

/// A selector names one of the known browsers.
pub open spec fn spec_known_bin(bin_name: Seq<char>) -> bool {
    bin_name == "qute"@ || bin_name == "ffox"@ || bin_name == "brave"@
}

/// The fixed application path of a known browser selector.
pub open spec fn spec_bin_path(bin_name: Seq<char>) -> Seq<char> {
    if bin_name == "qute"@ {
        "/Applications/qutebrowser.app"@
    } else if bin_name == "ffox"@ {
        "/Applications/Firefox Developer Edition.app"@
    } else {
        "/Applications/Brave Browser.app"@
    }
}

/// A URL together with the browser selector that should open it.
pub struct ArgUtil<'a> {
    pub url: &'a str,
    pub bin: Option<&'a str>,
}

impl<'a> ArgUtil<'a> {
    pub fn new(url: &'a str, bin: Option<&'a str>) -> (r: Self)
        ensures
            r.url == url,
            r.bin == bin,
    {
        Self { url, bin }
    }

    /// The arguments for opening a page at this URL: `-a`, the browser
    /// application, the URL.
    pub fn get_args_list_for_opening_page_to_url(&self) -> (r: Vec<String>)
        requires
            self.bin matches Some(b) && spec_known_bin(b@),
        ensures
            r@.len() == 3,
            r@[0]@ == "-a"@,
            self.bin matches Some(b) && r@[1]@ == spec_bin_path(b@),
            r@[2]@ == self.url@,
    {
        let browser_exec_path_str = self.get_path_of_browser_executable();

        let mut args: Vec<String> = Vec::new();
        args.push(String::from_str("-a"));
        args.push(browser_exec_path_str);
        args.push(String::from_str(self.url));
        args
    }

    /// The arguments for opening a blank window: the browser application
    /// alone.
    pub fn get_args_list_for_blank_page(&self) -> (r: Vec<String>)
        requires
            self.bin matches Some(b) && spec_known_bin(b@),
        ensures
            r@.len() == 1,
            self.bin matches Some(b) && r@[0]@ == spec_bin_path(b@),
    {
        let browser_exec_path = self.get_path_of_browser_executable();
        let mut args: Vec<String> = Vec::new();
        args.push(browser_exec_path);
        args
    }

    /// The application path of this selector's browser.
    pub fn get_path_of_browser_executable(&self) -> (r: String)
        requires
            self.bin matches Some(b) && spec_known_bin(b@),
        ensures
            self.bin matches Some(b) && r@ == spec_bin_path(b@),
    {
        match self.bin {
            Some(bin_name) => get_path_of_browser_bin_by_name(bin_name),
            None => unreached(),
        }
    }
}

/// The fixed application path of a known browser selector.
pub fn get_path_of_browser_bin_by_name(bin_name: &str) -> (r: String)
    requires
        spec_known_bin(bin_name@),
    ensures
        r@ == spec_bin_path(bin_name@),
{
    if str_eq(bin_name, "qute") {
        String::from_str("/Applications/qutebrowser.app")
    } else if str_eq(bin_name, "ffox") {
        String::from_str("/Applications/Firefox Developer Edition.app")
    } else {
        String::from_str("/Applications/Brave Browser.app")
    }
}

} // verus!
