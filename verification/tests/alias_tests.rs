use browser_util::get_url_from_raw_match;
use browser_util::get_view_lines;
use browser_util::url_string_for_input;
use browser_util::SpecialUrl;
use browser_util::UrlInputType;

fn final_url(raw: Option<&str>) -> Option<String> {
    url_string_for_input(get_url_from_raw_match(raw))
}

#[test]
fn every_trigger_token_resolves_to_its_own_alias() {
    let expected: [(&str, SpecialUrl); 9] = [
        ("github", SpecialUrl::Github),
        ("mail", SpecialUrl::Gmail),
        ("gmail", SpecialUrl::Gmail),
        ("logs", SpecialUrl::Logs),
        ("log", SpecialUrl::Logs),
        ("dev", SpecialUrl::DevServer),
        ("ng", SpecialUrl::Ng),
        ("yt", SpecialUrl::Yt),
        ("new", SpecialUrl::Default),
    ];
    for (token, alias) in expected {
        match get_url_from_raw_match(Some(token)) {
            UrlInputType::Special(a) => assert_eq!(a, alias),
            _ => panic!("token did not resolve to an alias"),
        }
    }
}

#[test]
fn every_alias_has_its_canonical_url() {
    assert_eq!(
        SpecialUrl::Github.to_url_string(),
        "https://github.com/astherath"
    );
    assert_eq!(SpecialUrl::Gmail.to_url_string(), "https://gmail.com");
    assert_eq!(
        SpecialUrl::Logs.to_url_string(),
        "https://dashboard.heroku.com/apps/sparkdev-underline/logs"
    );
    assert_eq!(
        SpecialUrl::DevServer.to_url_string(),
        "localhost:8000/docs"
    );
    assert_eq!(SpecialUrl::Ng.to_url_string(), "localhost:4200");
    assert_eq!(SpecialUrl::Yt.to_url_string(), "https://youtube.com");
    assert_eq!(SpecialUrl::Default.to_url_string(), "https://google.com");
}

#[test]
fn absent_argument_is_always_blank() {
    assert!(matches!(get_url_from_raw_match(None), UrlInputType::Blank));
}

#[test]
fn blank_input_launches_no_url() {
    assert_eq!(final_url(None), None);
}

#[test]
fn github_token_gives_github_url() {
    assert_eq!(
        final_url(Some("github")),
        Some("https://github.com/astherath".to_string())
    );
}

#[test]
fn dev_alias_canonical_without_dot_becomes_a_search() {
    // the canonical `localhost:8000/docs` holds no dot, so the normalizer's
    // search rule fires before the scheme-prepending rules
    assert_eq!(
        final_url(Some("dev")),
        Some("https://www.google.com/search?q=localhost:8000/docs".to_string())
    );
}

#[test]
fn search_phrase_gives_google_url() {
    assert_eq!(
        final_url(Some("foo bar")),
        Some("https://www.google.com/search?q=foo+bar".to_string())
    );
}

#[test]
fn yt_query_gives_youtube_url() {
    assert_eq!(
        final_url(Some("yt + lofi beats")),
        Some("https://www.youtube.com/results?search_query=+lofi+beats".to_string())
    );
}

#[test]
fn subsequence_input_matches_first_declared_token() {
    // "gh" appears in order inside "github", the first declared token
    match get_url_from_raw_match(Some("gh")) {
        UrlInputType::Special(a) => assert_eq!(a, SpecialUrl::Github),
        _ => panic!("subsequence input did not resolve to an alias"),
    }
}

#[test]
fn transposed_typo_is_no_subsequence_and_becomes_a_search() {
    // "gmial" is not an in-order subsequence of any trigger token, so the
    // matcher passes it through as literal input
    match get_url_from_raw_match(Some("gmial")) {
        UrlInputType::Regular(s) => assert_eq!(s, "gmial"),
        _ => panic!("typo unexpectedly resolved to an alias"),
    }
    assert_eq!(
        final_url(Some("gmial")),
        Some("https://www.google.com/search?q=gmial".to_string())
    );
}

#[test]
fn empty_input_matches_first_declared_token() {
    // the fuzzy matcher gives every choice a score against an empty pattern
    match get_url_from_raw_match(Some("")) {
        UrlInputType::Special(a) => assert_eq!(a, SpecialUrl::Github),
        _ => panic!("empty input did not resolve to an alias"),
    }
}

#[test]
fn alias_table_lists_every_token_in_declaration_order() {
    let pairs = SpecialUrl::get_shorthand_url_pairs();
    let tokens: Vec<String> = pairs.iter().map(|p| p.0.clone()).collect();
    assert_eq!(
        tokens,
        vec!["github", "mail", "gmail", "logs", "log", "dev", "ng", "yt", "new"]
    );
    assert_eq!(pairs[3].1, "https://dashboard.heroku.com/apps/sparkdev-underline/logs");
    assert_eq!(pairs[8].1, "https://google.com");
}

#[test]
fn possible_value_strs_match_the_array() {
    let from_vec = SpecialUrl::get_all_possible_value_strs();
    let from_array = SpecialUrl::get_all_possible_value_strs_array();
    assert_eq!(from_vec.len(), from_array.len());
    for (s, a) in from_vec.iter().zip(from_array.iter()) {
        assert_eq!(s, a);
    }
}

#[test]
fn view_lines_have_header_rule_and_one_row_per_token() {
    let lines = get_view_lines();
    assert_eq!(lines.len(), 11);
    assert_eq!(lines[0], "Shorthand | url");
    assert_eq!(lines[1], "-".repeat(50));
    assert_eq!(lines[2], "github   | https://github.com/astherath  ");
    assert_eq!(lines[6], "log      | https://dashboard.heroku.com/apps/sparkdev-underline/logs");
    assert_eq!(lines[10], "new      | https://google.com            ");
}

#[test]
fn unknown_token_string_resolves_to_default() {
    assert_eq!(SpecialUrl::from_str("nonsense"), SpecialUrl::Default);
    assert_eq!(SpecialUrl::from_str("github"), SpecialUrl::Github);
    assert_eq!(SpecialUrl::from_str("log"), SpecialUrl::Logs);
}
