//! Classification of the raw command-line argument and the final URL it
//! leads to: an absent argument stays blank; an argument that fuzzy-matches
//! a trigger token becomes its alias; anything else is carried as literal
//! input for the normalizer.

use crate::url_input::spec_normalize;
use crate::url_input::validate_and_fix_url_string;
use crate::url_input::UrlInputType;
use crate::url_macro_handler::spec_try_match;
use crate::url_macro_handler::spec_url_of;
use crate::url_macro_handler::SpecialUrl;
use vstd::prelude::*;

verus! {

/// Classifies the raw optional argument: absent input is always `Blank`,
/// whatever else was passed on the command line; a fuzzy-matched trigger
/// token resolves to its alias; everything else stays literal input.
pub fn get_url_from_raw_match(raw_cli_match: Option<&str>) -> (r: UrlInputType)
    ensures
        match raw_cli_match {
            None => r is Blank,
            Some(s) => match spec_try_match(s@) {
                Some(a) => r == UrlInputType::Special(a),
                None => r matches UrlInputType::Regular(t) && t@ == s@,
            },
        },
        raw_cli_match matches Some(s) ==> {
            &&& s@ == "github"@ ==> r == UrlInputType::Special(SpecialUrl::Github)
            &&& s@ == "mail"@ ==> r == UrlInputType::Special(SpecialUrl::Gmail)
            &&& s@ == "gmail"@ ==> r == UrlInputType::Special(SpecialUrl::Gmail)
            &&& s@ == "logs"@ ==> r == UrlInputType::Special(SpecialUrl::Logs)
            &&& s@ == "log"@ ==> r == UrlInputType::Special(SpecialUrl::Logs)
            &&& s@ == "dev"@ ==> r == UrlInputType::Special(SpecialUrl::DevServer)
            &&& s@ == "ng"@ ==> r == UrlInputType::Special(SpecialUrl::Ng)
            &&& s@ == "yt"@ ==> r == UrlInputType::Special(SpecialUrl::Yt)
            &&& s@ == "new"@ ==> r == UrlInputType::Special(SpecialUrl::Default)
        },
{
    if let Some(url_str) = raw_cli_match {
        match SpecialUrl::try_to_match_from_str(url_str) {
            Some(special_url) => UrlInputType::Special(special_url),
            None => UrlInputType::Regular(url_str.to_owned()),
        }
    } else {
        UrlInputType::Blank
    }
}

/// The URL a classified input sends the browser to: `None` asks for a blank
/// window; an alias goes to its canonical URL and literal input to itself,
/// both through the normalizer.
pub fn url_string_for_input(url: UrlInputType) -> (r: Option<String>)
    ensures
        match url {
            UrlInputType::Blank => r is None,
            UrlInputType::Regular(raw) => r matches Some(u) && u@ == spec_normalize(raw@),
            UrlInputType::Special(a) => r matches Some(u) && u@ == spec_normalize(spec_url_of(a)),
        },
{
    match url {
        UrlInputType::Regular(raw_url_string) => Some(
            validate_and_fix_url_string(raw_url_string.as_str()),
        ),
        UrlInputType::Special(special_url) => Some(
            validate_and_fix_url_string(special_url.to_url_string().as_str()),
        ),
        UrlInputType::Blank => None,
    }
}

} // verus!
