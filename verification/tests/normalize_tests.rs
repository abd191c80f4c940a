use browser_util::add_http_prefix_to_url;
use browser_util::turn_to_search_url;
use browser_util::turn_to_yt_search_url;
use browser_util::validate_and_fix_url_string;

#[test]
fn prefixed_https_url_is_unchanged() {
    assert_eq!(
        validate_and_fix_url_string("https://github.com/astherath"),
        "https://github.com/astherath"
    );
}

#[test]
fn prefixed_http_url_is_unchanged() {
    assert_eq!(validate_and_fix_url_string("http://a.b.c"), "http://a.b.c");
}

#[test]
fn long_bare_host_gets_http_prefix() {
    assert_eq!(
        validate_and_fix_url_string("example.com"),
        "http://example.com"
    );
}

#[test]
fn phrase_with_space_becomes_google_search() {
    assert_eq!(
        validate_and_fix_url_string("foo bar"),
        "https://www.google.com/search?q=foo+bar"
    );
}

#[test]
fn word_without_dot_becomes_google_search() {
    assert_eq!(
        validate_and_fix_url_string("torrent"),
        "https://www.google.com/search?q=torrent"
    );
}

#[test]
fn yt_marker_becomes_youtube_search() {
    assert_eq!(
        validate_and_fix_url_string("yt + lofi beats"),
        "https://www.youtube.com/results?search_query=+lofi+beats"
    );
}

#[test]
fn yt_marker_with_trailing_space_only_gives_plus_query() {
    assert_eq!(
        validate_and_fix_url_string("yt + "),
        "https://www.youtube.com/results?search_query=+"
    );
}

#[test]
fn empty_input_becomes_empty_google_search() {
    assert_eq!(
        validate_and_fix_url_string(""),
        "https://www.google.com/search?q="
    );
}

#[test]
fn short_dotted_host_gets_http_prefix() {
    assert_eq!(validate_and_fix_url_string("a.b"), "http://a.b");
}

#[test]
fn seven_char_prefix_of_https_counts_as_prefixed() {
    assert_eq!(validate_and_fix_url_string("https:/x.y"), "https:/x.y");
}

#[test]
fn dotless_host_becomes_a_search() {
    assert_eq!(
        validate_and_fix_url_string("localhost:8000/docs"),
        "https://www.google.com/search?q=localhost:8000/docs"
    );
}

#[test]
fn dotted_host_with_port_gets_http_prefix() {
    assert_eq!(
        validate_and_fix_url_string("local.dev:8000/docs"),
        "http://local.dev:8000/docs"
    );
}

#[test]
fn lengths_count_characters_not_bytes() {
    // seven characters, eleven bytes: the short-URL rule must fire
    assert_eq!(validate_and_fix_url_string("ééé.ééé"), "http://ééé.ééé");
}

#[test]
fn search_url_replaces_every_space() {
    assert_eq!(
        turn_to_search_url("a b c"),
        "https://www.google.com/search?q=a+b+c"
    );
}

#[test]
fn yt_search_url_drops_marker_and_replaces_spaces() {
    assert_eq!(
        turn_to_yt_search_url("yt + two words"),
        "https://www.youtube.com/results?search_query=+two+words"
    );
}

#[test]
fn http_prefix_is_prepended_verbatim() {
    assert_eq!(add_http_prefix_to_url("x.y"), "http://x.y");
}
