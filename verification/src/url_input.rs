//! URL normalization: turns a free-form input string into a dereferenceable
//! URL. The rules, tried top to bottom, first match wins:
//!
//! 1. an input starting with the four characters `yt +` becomes a YouTube
//!    search for the rest of the input (spaces written as `+`);
//! 2. an input holding a space, or holding no `.`, becomes a Google search
//!    (spaces written as `+`);
//! 3. an input of at most 7 characters gets `http://` prepended;
//! 4. an input whose first 7 characters are `http://` or `https:/` (the
//!    7-character prefix of `https://`) is returned unchanged;
//! 5. anything else gets `http://` prepended.

use crate::text::append_plused;
use crate::text::spec_plused;
use crate::text::spec_starts_with;
use crate::text::str_contains_char;
use crate::text::str_starts_with;
use crate::url_macro_handler::SpecialUrl;
use vstd::prelude::*;
use vstd::string::StrSliceExecFns;
use vstd::string::StringExecFns;

verus! {

/// The classification of the raw command-line argument: free-form input,
/// no argument at all, or a recognized bookmark alias.
pub enum UrlInputType {
    Regular(String),
    Blank,
    Special(SpecialUrl),
}

/// What the normalizer returns, rule by rule.
pub open spec fn spec_normalize(s: Seq<char>) -> Seq<char> {
    if spec_starts_with(s, "yt +"@) {
        "https://www.youtube.com/results?search_query="@ + spec_plused(s.skip(4))
    } else if s.contains(' ') || !s.contains('.') {
        "https://www.google.com/search?q="@ + spec_plused(s)
    } else if s.len() <= 7 {
        "http://"@ + s
    } else if s.subrange(0, 7) == "http://"@ || s.subrange(0, 7) == "https:/"@ {
        s
    } else {
        "http://"@ + s
    }
}

/// Canonicalizes a raw input string into the URL handed to the launcher.
pub fn validate_and_fix_url_string(url_str: &str) -> (r: String)
    ensures
        r@ == spec_normalize(url_str@),
{
    // check for the special yt shorthand first
    if str_starts_with(url_str, "yt +") {
        proof {
            reveal_strlit("yt +");
        }
        return turn_to_yt_search_url(url_str);
    }
    // check if searchable string
    if str_contains_char(url_str, ' ') || !str_contains_char(url_str, '.') {
        return turn_to_search_url(url_str);
    }
    let min_http_prefix_size: usize = 7;
    let url_too_small_to_have_http_prefix = url_str.unicode_len() <= min_http_prefix_size;

    if url_too_small_to_have_http_prefix {
        add_http_prefix_to_url(url_str)
    } else {
        proof {
            reveal_strlit("http://");
            reveal_strlit("https:/");
        }
        if str_starts_with(url_str, "http://") || str_starts_with(url_str, "https:/") {
            url_str.to_owned()
        } else {
            add_http_prefix_to_url(url_str)
        }
    }
}

/// Wraps a phrase into a Google search URL, spaces written as `+`.
pub fn turn_to_search_url(search_term: &str) -> (r: String)
    ensures
        r@ == "https://www.google.com/search?q="@ + spec_plused(search_term@),
{
    let mut result = String::from_str("https://www.google.com/search?q=");
    append_plused(&mut result, search_term, 0);
    proof {
        assert(search_term@.skip(0) =~= search_term@);
    }
    result
}

/// Wraps everything after the 4-character `yt +` marker into a YouTube
/// search URL, spaces written as `+`.
pub fn turn_to_yt_search_url(search_term: &str) -> (r: String)
    requires
        search_term@.len() >= 4,
    ensures
        r@ == "https://www.youtube.com/results?search_query="@ + spec_plused(
            search_term@.skip(4),
        ),
{
    let mut result = String::from_str("https://www.youtube.com/results?search_query=");
    append_plused(&mut result, search_term, 4);
    result
}

/// Prepends the plain `http://` scheme.
pub fn add_http_prefix_to_url(url_str: &str) -> (r: String)
    ensures
        r@ == "http://"@ + url_str@,
{
    let result = String::from_str("http://");
    result.concat(url_str)
}

/// An input that already carries its scheme — it starts with `http://` or
/// `https://` — and holds no space and at least one dot is returned
/// unchanged. (A space sends any input to the search rule, and the one
/// scheme-prefixed string without a dot, `http://` itself, is short enough
/// for the length rule; the normalizer leaves neither unchanged.)
pub proof fn lemma_normalize_keeps_prefixed(s: Seq<char>)
    requires
        spec_starts_with(s, "http://"@) || spec_starts_with(s, "https://"@),
        !s.contains(' '),
        s.contains('.'),
    ensures
        spec_normalize(s) == s,
{
    reveal_strlit("yt +");
    reveal_strlit("http://");
    reveal_strlit("https://");
    reveal_strlit("https:/");
    assert("yt +"@.len() == 4 && "http://"@.len() == 7 && "https://"@.len() == 8 && "https:/"@.len()
        == 7);
    assert("http://"@[0] == 'h' && "http://"@[1] == 't' && "http://"@[2] == 't' && "http://"@[3]
        == 'p' && "http://"@[4] == ':' && "http://"@[5] == '/' && "http://"@[6] == '/');
    assert("https://"@[0] == 'h' && "https://"@[1] == 't' && "https://"@[2] == 't' && "https://"@[3]
        == 'p' && "https://"@[4] == 's' && "https://"@[5] == ':' && "https://"@[6] == '/'
        && "https://"@[7] == '/');
    assert("https:/"@[0] == 'h' && "https:/"@[1] == 't' && "https:/"@[2] == 't' && "https:/"@[3]
        == 'p' && "https:/"@[4] == 's' && "https:/"@[5] == ':' && "https:/"@[6] == '/');
    assert("yt +"@[0] == 'y');
    if spec_starts_with(s, "http://"@) {
        assert(s[0] == 'h') by {
            assert(s.subrange(0, 7)[0] == s[0]);
        }
    } else {
        assert(s[0] == 'h') by {
            assert(s.subrange(0, 8)[0] == s[0]);
        }
    }
    if spec_starts_with(s, "yt +"@) {
        assert(s.subrange(0, 4)[0] == s[0]);
        assert(false);
    }
    if spec_starts_with(s, "http://"@) {
        if s.len() <= 7 {
            assert(s =~= "http://"@);
            let k = choose|k: int| 0 <= k < s.len() && s[k] == '.';
            assert(false);
        }
    } else {
        assert(s.len() >= 8);
        assert(s.subrange(0, 7) =~= "https:/"@) by {
            assert forall|i: int| 0 <= i < 7 implies s.subrange(0, 7)[i] == "https:/"@[i] by {
                assert(s.subrange(0, 8)[i] == s[i]);
                assert(s.subrange(0, 7)[i] == s[i]);
            }
        }
    }
}

/// A long input without scheme prefix, space or `yt +` marker, but with a
/// dot, gets `http://` prepended and nothing else.
pub proof fn lemma_normalize_prepends_scheme(s: Seq<char>)
    requires
        s.len() > 7,
        !s.contains(' '),
        s.contains('.'),
        s.subrange(0, 7) != "http://"@,
        s.subrange(0, 7) != "https:/"@,
    ensures
        spec_normalize(s) == "http://"@ + s,
{
    reveal_strlit("yt +");
    if spec_starts_with(s, "yt +"@) {
        assert("yt +"@[2] == ' ');
        assert(s.subrange(0, 4)[2] == s[2]);
        assert(s.contains(' ')) by {
            assert(s[2] == ' ');
        }
        assert(false);
    }
}

/// Any input with a space, short of the `yt +` marker, becomes a Google
/// search whose query is the input with spaces written as `+`.
pub proof fn lemma_normalize_search_on_space(s: Seq<char>)
    requires
        s.contains(' '),
        !spec_starts_with(s, "yt +"@),
    ensures
        spec_normalize(s) == "https://www.google.com/search?q="@ + spec_plused(s),
{
}

/// Any input without a dot, short of the `yt +` marker, becomes a Google
/// search whose query is the input with spaces written as `+`.
pub proof fn lemma_normalize_search_on_no_dot(s: Seq<char>)
    requires
        !s.contains('.'),
        !spec_starts_with(s, "yt +"@),
    ensures
        spec_normalize(s) == "https://www.google.com/search?q="@ + spec_plused(s),
{
}

/// Any input starting with the `yt +` marker becomes a YouTube search whose
/// query is everything after the marker, spaces written as `+`.
pub proof fn lemma_normalize_yt_search(s: Seq<char>)
    requires
        spec_starts_with(s, "yt +"@),
    ensures
        spec_normalize(s) == "https://www.youtube.com/results?search_query="@ + spec_plused(
            s.skip(4),
        ),
{
}

} // verus!
