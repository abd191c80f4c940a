use browser_util::get_path_of_browser_bin_by_name;
use browser_util::ArgUtil;

#[test]
fn every_known_selector_has_its_application_path() {
    assert_eq!(
        get_path_of_browser_bin_by_name("qute"),
        "/Applications/qutebrowser.app"
    );
    assert_eq!(
        get_path_of_browser_bin_by_name("ffox"),
        "/Applications/Firefox Developer Edition.app"
    );
    assert_eq!(
        get_path_of_browser_bin_by_name("brave"),
        "/Applications/Brave Browser.app"
    );
}

#[test]
fn url_launch_args_are_dash_a_app_url() {
    let util = ArgUtil::new("http://a.b", Some("qute"));
    let args = util.get_args_list_for_opening_page_to_url();
    assert_eq!(
        args,
        vec!["-a", "/Applications/qutebrowser.app", "http://a.b"]
    );
}

#[test]
fn blank_launch_args_hold_the_application_alone() {
    let util = ArgUtil::new("", Some("brave"));
    let args = util.get_args_list_for_blank_page();
    assert_eq!(args, vec!["/Applications/Brave Browser.app"]);
}
