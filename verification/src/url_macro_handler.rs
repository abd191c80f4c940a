//! The bookmark alias table: a closed, declaration-ordered set of trigger
//! tokens, each resolving to one canonical destination URL, and the fuzzy
//! matching that recognizes a token in free-form input.

use crate::text::pad_right;
use crate::text::spec_pad_right;
use crate::text::str_eq;
use fuzzy_matcher::skim::SkimMatcherV2;
use fuzzy_matcher::FuzzyMatcher;
use vstd::prelude::*;
use vstd::string::StringExecFns;

verus! {

/// Every character of `p` appears, in order, inside `c`.
pub open spec fn spec_is_subseq_of(p: Seq<char>, c: Seq<char>) -> bool
    decreases c.len(),
{
    if p.len() == 0 {
        true
    } else if c.len() == 0 {
        false
    } else if p[0] == c[0] {
        spec_is_subseq_of(p.skip(1), c.skip(1))
    } else {
        spec_is_subseq_of(p, c.skip(1))
    }
}

/// No ASCII capital letter anywhere in the string.
pub open spec fn spec_no_ascii_upper(s: Seq<char>) -> bool {
    forall|i: int| 0 <= i < s.len() ==> !('A' as int <= s[i] as int && s[i] as int <= 'Z' as int)
}

/// The score that the fuzzy matcher gives `pattern` against `choice`; the
/// matcher's scoring depends on the two strings alone.
pub uninterp spec fn fuzzy_score(choice: Seq<char>, pattern: Seq<char>) -> Option<i64>;

/// Relies on fuzzy_matcher's SkimMatcherV2::fuzzy_match, a skim/fzf-style
/// subsequence matcher with smart case: the score is a function of the two
/// strings alone; a pattern whose characters appear, in order and verbatim,
/// inside the choice always gets a score; and a score is only given when the
/// pattern's characters appear in order inside the choice, up to ASCII case —
/// verbatim, when neither string holds an ASCII capital.
#[verifier::external_body]
fn fuzzy_match_score(choice: &str, pattern: &str) -> (r: Option<i64>)
    ensures
        r == fuzzy_score(choice@, pattern@),
        spec_is_subseq_of(pattern@, choice@) ==> r.is_some(),
        (r.is_some() && spec_no_ascii_upper(choice@) && spec_no_ascii_upper(pattern@))
            ==> spec_is_subseq_of(pattern@, choice@),
{
    SkimMatcherV2::default().fuzzy_match(choice, pattern)
}

/// The first declared token from position `i` on that the fuzzy matcher
/// scores against `s`, resolved to its alias.
pub open spec fn spec_first_match_from(s: Seq<char>, i: int) -> Option<SpecialUrl>
    decreases spec_trigger_tokens().len() - i,
{
    if i < 0 || i >= spec_trigger_tokens().len() {
        None
    } else if fuzzy_score(spec_trigger_tokens()[i], s).is_some() {
        Some(spec_alias_at(i))
    } else {
        spec_first_match_from(s, i + 1)
    }
}

/// What matching `s` against the whole declared token list returns.
pub open spec fn spec_try_match(s: Seq<char>) -> Option<SpecialUrl> {
    spec_first_match_from(s, 0)
}

/// One bookmarked destination.
#[derive(Clone, Copy, PartialEq, Eq, Structural, Debug)]
pub enum SpecialUrl {
    Github,
    Gmail,
    Logs,
    DevServer,
    Ng,
    Yt,
    Default,
}

/// The trigger tokens, in declaration order. The order is the tie-break of
/// the fuzzy matcher, so it is part of the library's behaviour.
pub open spec fn spec_trigger_tokens() -> Seq<Seq<char>> {
    seq![
        "github"@,
        "mail"@,
        "gmail"@,
        "logs"@,
        "log"@,
        "dev"@,
        "ng"@,
        "yt"@,
        "new"@,
    ]
}

/// The alias that the token at position `i` of the declared order names.
pub open spec fn spec_alias_at(i: int) -> SpecialUrl {
    if i == 0 {
        SpecialUrl::Github
    } else if i == 1 || i == 2 {
        SpecialUrl::Gmail
    } else if i == 3 || i == 4 {
        SpecialUrl::Logs
    } else if i == 5 {
        SpecialUrl::DevServer
    } else if i == 6 {
        SpecialUrl::Ng
    } else if i == 7 {
        SpecialUrl::Yt
    } else {
        SpecialUrl::Default
    }
}

/// The alias a token string names; every undeclared string falls back to
/// `Default`.
pub open spec fn spec_alias_of(t: Seq<char>) -> SpecialUrl {
    if t == "github"@ {
        SpecialUrl::Github
    } else if t == "mail"@ || t == "gmail"@ {
        SpecialUrl::Gmail
    } else if t == "logs"@ || t == "log"@ {
        SpecialUrl::Logs
    } else if t == "dev"@ {
        SpecialUrl::DevServer
    } else if t == "ng"@ {
        SpecialUrl::Ng
    } else if t == "yt"@ {
        SpecialUrl::Yt
    } else {
        SpecialUrl::Default
    }
}

/// The canonical URL of an alias, verbatim.
pub open spec fn spec_url_of(a: SpecialUrl) -> Seq<char> {
    match a {
        SpecialUrl::Github => "https://github.com/astherath"@,
        SpecialUrl::Gmail => "https://gmail.com"@,
        SpecialUrl::Logs => "https://dashboard.heroku.com/apps/sparkdev-underline/logs"@,
        SpecialUrl::DevServer => "localhost:8000/docs"@,
        SpecialUrl::Ng => "localhost:4200"@,
        SpecialUrl::Yt => "https://youtube.com"@,
        SpecialUrl::Default => "https://google.com"@,
    }
}

impl SpecialUrl {
    /// The canonical URL of this alias.
    pub fn to_url_string(self) -> (r: String)
        ensures
            r@ == spec_url_of(self),
    {
        let s: &str = match self {
            SpecialUrl::Github => "https://github.com/astherath",
            SpecialUrl::Gmail => "https://gmail.com",
            SpecialUrl::Logs => "https://dashboard.heroku.com/apps/sparkdev-underline/logs",
            SpecialUrl::DevServer => "localhost:8000/docs",
            SpecialUrl::Ng => "localhost:4200",
            SpecialUrl::Yt => "https://youtube.com",
            SpecialUrl::Default => "https://google.com",
        };
        String::from_str(s)
    }

    /// Resolves a trigger token to its alias; any other string resolves to
    /// `Default`.
    pub fn from_str(str_val: &str) -> (r: SpecialUrl)
        ensures
            r == spec_alias_of(str_val@),
    {
        if str_eq(str_val, "github") {
            SpecialUrl::Github
        } else if str_eq(str_val, "mail") || str_eq(str_val, "gmail") {
            SpecialUrl::Gmail
        } else if str_eq(str_val, "logs") || str_eq(str_val, "log") {
            SpecialUrl::Logs
        } else if str_eq(str_val, "dev") {
            SpecialUrl::DevServer
        } else if str_eq(str_val, "ng") {
            SpecialUrl::Ng
        } else if str_eq(str_val, "yt") {
            SpecialUrl::Yt
        } else {
            SpecialUrl::Default
        }
    }

    /// Returns the alias of the first declared trigger token, in declaration
    /// order, that the fuzzy matcher scores against the input, or `None` when
    /// no token scores. A declared token given verbatim always resolves, and
    /// resolves to its own alias (the alias-token round trip).
    pub fn try_to_match_from_str(url_str: &str) -> (r: Option<SpecialUrl>)
        ensures
            r == spec_try_match(url_str@),
            url_str@ == "github"@ ==> r == Some(SpecialUrl::Github),
            url_str@ == "mail"@ ==> r == Some(SpecialUrl::Gmail),
            url_str@ == "gmail"@ ==> r == Some(SpecialUrl::Gmail),
            url_str@ == "logs"@ ==> r == Some(SpecialUrl::Logs),
            url_str@ == "log"@ ==> r == Some(SpecialUrl::Logs),
            url_str@ == "dev"@ ==> r == Some(SpecialUrl::DevServer),
            url_str@ == "ng"@ ==> r == Some(SpecialUrl::Ng),
            url_str@ == "yt"@ ==> r == Some(SpecialUrl::Yt),
            url_str@ == "new"@ ==> r == Some(SpecialUrl::Default),
    {
        let possible_enum_strings = Self::get_all_possible_value_strs();

        let mut i: usize = 0;
        while i < possible_enum_strings.len()
            invariant
                possible_enum_strings@.len() == spec_trigger_tokens().len(),
                forall|k: int|
                    0 <= k < possible_enum_strings@.len() ==> possible_enum_strings@[k]@
                        == spec_trigger_tokens()[k],
                0 <= i <= possible_enum_strings@.len(),
                forall|k: int|
                    0 <= k < i ==> fuzzy_score(spec_trigger_tokens()[k], url_str@).is_none(),
                forall|k: int|
                    0 <= k < i ==> !spec_is_subseq_of(url_str@, spec_trigger_tokens()[k]),
            decreases possible_enum_strings@.len() - i,
        {
            let string_to_compare = &possible_enum_strings[i];
            if fuzzy_match_score(string_to_compare.as_str(), url_str).is_some() {
                proof {
                    lemma_first_match_from_step(url_str@, 0, i as int);
                    lemma_alias_of_token(i as int);
                    lemma_tokens_lowercase();
                    lemma_identify_token(url_str@, i as int);
                }
                return Some(Self::from_str(string_to_compare.as_str()));
            }
            i += 1;
        }
        proof {
            lemma_first_match_from_step(url_str@, 0, spec_trigger_tokens().len() as int);
            lemma_no_match_is_no_token(url_str@);
        }
        None
    }

    /// The declared trigger tokens, in declaration order.
    pub fn get_all_possible_value_strs() -> (r: Vec<String>)
        ensures
            r@.len() == spec_trigger_tokens().len(),
            forall|i: int|
                0 <= i < r@.len() ==> r@[i]@ == spec_trigger_tokens()[i],
    {
        let arr = Self::get_all_possible_value_strs_array();
        let mut out: Vec<String> = Vec::new();
        let mut i: usize = 0;
        while i < arr.len()
            invariant
                arr@.len() == spec_trigger_tokens().len(),
                forall|k: int| 0 <= k < arr@.len() ==> arr@[k]@ == spec_trigger_tokens()[k],
                0 <= i <= arr@.len(),
                out@.len() == i,
                forall|k: int| 0 <= k < i ==> out@[k]@ == spec_trigger_tokens()[k],
            decreases arr@.len() - i,
        {
            out.push(arr[i].to_owned());
            i += 1;
        }
        out
    }

    /// The declared trigger tokens as a fixed array, in declaration order.
    pub fn get_all_possible_value_strs_array() -> (r: [&'static str; 9])
        ensures
            r@.len() == spec_trigger_tokens().len(),
            forall|i: int|
                0 <= i < r@.len() ==> r@[i]@ == spec_trigger_tokens()[i],
    {
        let arr = ["github", "mail", "gmail", "logs", "log", "dev", "ng", "yt", "new"];
        proof {
            assert(arr@[0]@ == spec_trigger_tokens()[0]);
            assert(arr@[1]@ == spec_trigger_tokens()[1]);
            assert(arr@[2]@ == spec_trigger_tokens()[2]);
            assert(arr@[3]@ == spec_trigger_tokens()[3]);
            assert(arr@[4]@ == spec_trigger_tokens()[4]);
            assert(arr@[5]@ == spec_trigger_tokens()[5]);
            assert(arr@[6]@ == spec_trigger_tokens()[6]);
            assert(arr@[7]@ == spec_trigger_tokens()[7]);
            assert(arr@[8]@ == spec_trigger_tokens()[8]);
        }
        arr
    }

    /// The `(token, canonical URL)` pairs of the whole table, in declaration
    /// order: exactly one row per declared trigger token.
    pub fn get_shorthand_url_pairs() -> (r: Vec<(String, String)>)
        ensures
            r@.len() == spec_trigger_tokens().len(),
            forall|i: int|
                0 <= i < r@.len() ==> r@[i].0@ == spec_trigger_tokens()[i],
            forall|i: int|
                0 <= i < r@.len() ==> r@[i].1@ == spec_url_of(spec_alias_at(i)),
    {
        let tokens = Self::get_all_possible_value_strs();
        let mut out: Vec<(String, String)> = Vec::new();
        let mut i: usize = 0;
        while i < tokens.len()
            invariant
                tokens@.len() == spec_trigger_tokens().len(),
                forall|k: int|
                    0 <= k < tokens@.len() ==> tokens@[k]@ == spec_trigger_tokens()[k],
                0 <= i <= tokens@.len(),
                out@.len() == i,
                forall|k: int| 0 <= k < i ==> out@[k].0@ == spec_trigger_tokens()[k],
                forall|k: int| 0 <= k < i ==> out@[k].1@ == spec_url_of(spec_alias_at(k)),
            decreases tokens@.len() - i,
        {
            let token = &tokens[i];
            let alias = Self::from_str(token.as_str());
            proof {
                lemma_alias_of_token(i as int);
            }
            out.push((token.clone(), alias.to_url_string()));
            i += 1;
        }
        out
    }
}

/// One row of the `view` table: the token left-justified in 8 columns, a
/// column separator, the canonical URL left-justified in 30 columns.
pub open spec fn spec_view_row(i: int) -> Seq<char> {
    spec_pad_right(spec_trigger_tokens()[i], 8) + " | "@ + spec_pad_right(
        spec_url_of(spec_alias_at(i)),
        30,
    )
}

/// The lines the `view` subcommand prints: a header and a 50-dash separator,
/// then exactly one row per declared trigger token, in declaration order.
pub fn get_view_lines() -> (r: Vec<String>)
    ensures
        r@.len() == 2 + spec_trigger_tokens().len(),
        r@[0]@ == "Shorthand | url"@,
        r@[1]@ == Seq::new(50, |j: int| '-'),
        forall|i: int| 0 <= i < spec_trigger_tokens().len() ==> r@[2 + i]@ == spec_view_row(i),
{
    let mut lines: Vec<String> = Vec::new();
    lines.push(String::from_str("Shorthand | url"));

    let mut sep = String::new();
    let mut d: usize = 0;
    proof {
        reveal_strlit("-");
        assert("-"@ =~= seq!['-']);
        assert(sep@ =~= Seq::new(0, |j: int| '-'));
    }
    while d < 50
        invariant
            0 <= d <= 50,
            sep@ == Seq::new(d as nat, |j: int| '-'),
        decreases 50 - d,
    {
        sep.append("-");
        proof {
            reveal_strlit("-");
            assert("-"@ =~= seq!['-']);
            assert(sep@ =~= Seq::new((d + 1) as nat, |j: int| '-'));
        }
        d += 1;
    }
    lines.push(sep);

    let pairs = SpecialUrl::get_shorthand_url_pairs();
    let mut i: usize = 0;
    while i < pairs.len()
        invariant
            pairs@.len() == spec_trigger_tokens().len(),
            forall|k: int| 0 <= k < pairs@.len() ==> pairs@[k].0@ == spec_trigger_tokens()[k],
            forall|k: int|
                0 <= k < pairs@.len() ==> pairs@[k].1@ == spec_url_of(spec_alias_at(k)),
            0 <= i <= pairs@.len(),
            lines@.len() == 2 + i,
            lines@[0]@ == "Shorthand | url"@,
            lines@[1]@ == Seq::new(50, |j: int| '-'),
            forall|k: int| 0 <= k < i ==> lines@[2 + k]@ == spec_view_row(k),
        decreases pairs@.len() - i,
    {
        let row = pad_right(pairs[i].0.as_str(), 8).concat(" | ").concat(
            pad_right(pairs[i].1.as_str(), 30).as_str(),
        );
        lines.push(row);
        i += 1;
    }
    lines
}

/// At a declared position, resolving the token string gives the alias of
/// that position.
proof fn lemma_alias_of_token(i: int)
    requires
        0 <= i < spec_trigger_tokens().len(),
    ensures
        spec_alias_of(spec_trigger_tokens()[i]) == spec_alias_at(i),
{
    reveal_strlit("github");
    reveal_strlit("mail");
    reveal_strlit("gmail");
    reveal_strlit("logs");
    reveal_strlit("log");
    reveal_strlit("dev");
    reveal_strlit("ng");
    reveal_strlit("yt");
    reveal_strlit("new");
    assert("github"@.len() == 6 && "mail"@.len() == 4 && "gmail"@.len() == 5);
    assert("logs"@.len() == 4 && "log"@.len() == 3 && "dev"@.len() == 3);
    assert("ng"@.len() == 2 && "yt"@.len() == 2 && "new"@.len() == 3);
    assert("logs"@[0] == 'l' && "mail"@[0] == 'm');
    assert("logs"@ != "mail"@);
    assert("log"@[0] == 'l' && "dev"@[0] == 'd' && "new"@[0] == 'n');
    assert("ng"@[0] == 'n' && "yt"@[0] == 'y');
    assert("log"@ != "dev"@);
    assert("log"@ != "new"@);
    assert("dev"@ != "new"@);
    assert("ng"@ != "yt"@);
    assert(spec_alias_of("github"@) == SpecialUrl::Github);
    assert(spec_alias_of("mail"@) == SpecialUrl::Gmail);
    assert(spec_alias_of("gmail"@) == SpecialUrl::Gmail);
    assert(spec_alias_of("logs"@) == SpecialUrl::Logs);
    assert(spec_alias_of("log"@) == SpecialUrl::Logs);
    assert(spec_alias_of("dev"@) == SpecialUrl::DevServer);
    assert(spec_alias_of("ng"@) == SpecialUrl::Ng);
    assert(spec_alias_of("yt"@) == SpecialUrl::Yt);
    assert(spec_alias_of("new"@) == SpecialUrl::Default);
}

/// Every string is a subsequence of itself.
proof fn lemma_subseq_refl(s: Seq<char>)
    ensures
        spec_is_subseq_of(s, s),
    decreases s.len(),
{
    if s.len() != 0 {
        lemma_subseq_refl(s.skip(1));
    }
}

/// A subsequence is never longer than the string it appears in.
proof fn lemma_subseq_len(p: Seq<char>, c: Seq<char>)
    ensures
        spec_is_subseq_of(p, c) ==> p.len() <= c.len(),
    decreases c.len(),
{
    if p.len() != 0 && c.len() != 0 {
        if p[0] == c[0] {
            lemma_subseq_len(p.skip(1), c.skip(1));
        } else {
            lemma_subseq_len(p, c.skip(1));
        }
    }
}

/// Every character of a subsequence appears in the string it appears in.
proof fn lemma_subseq_char_in(p: Seq<char>, c: Seq<char>, ch: char)
    requires
        spec_is_subseq_of(p, c),
        p.contains(ch),
    ensures
        c.contains(ch),
    decreases c.len(),
{
    if p.len() == 0 {
        assert(false);
    } else if p[0] == c[0] {
        if ch == c[0] {
            assert(c.contains(ch)) by {
                assert(c[0] == ch);
            }
        } else {
            let k = choose|k: int| 0 <= k < p.len() && p[k] == ch;
            assert(p.skip(1)[k - 1] == ch);
            assert(p.skip(1).contains(ch));
            lemma_subseq_char_in(p.skip(1), c.skip(1), ch);
            let j = choose|j: int| 0 <= j < c.skip(1).len() && c.skip(1)[j] == ch;
            assert(c[j + 1] == ch);
            assert(c.contains(ch));
        }
    } else {
        lemma_subseq_char_in(p, c.skip(1), ch);
        let j = choose|j: int| 0 <= j < c.skip(1).len() && c.skip(1)[j] == ch;
        assert(c[j + 1] == ch);
        assert(c.contains(ch));
    }
}

/// A string holding a character that another lacks is no subsequence of it.
proof fn lemma_not_subseq(p: Seq<char>, c: Seq<char>, ch: char)
    requires
        p.contains(ch),
        !c.contains(ch),
    ensures
        !spec_is_subseq_of(p, c),
{
    if spec_is_subseq_of(p, c) {
        lemma_subseq_char_in(p, c, ch);
    }
}

proof fn lemma_github_facts()
    ensures
        "github"@.len() == 6,
        !"github"@.contains('m'),
        !"github"@.contains('l'),
        !"github"@.contains('d'),
        !"github"@.contains('n'),
        !"github"@.contains('y'),
        spec_no_ascii_upper("github"@),
{
    reveal_strlit("github");
    assert("github"@.len() == 6);
    assert("github"@[0] == 'g' && "github"@[1] == 'i' && "github"@[2] == 't' && "github"@[3] == 'h'
        && "github"@[4] == 'u' && "github"@[5] == 'b');
}

proof fn lemma_mail_facts()
    ensures
        "mail"@.len() == 4,
        !"mail"@.contains('o'),
        !"mail"@.contains('d'),
        !"mail"@.contains('n'),
        !"mail"@.contains('y'),
        "mail"@.contains('m'),
        spec_no_ascii_upper("mail"@),
{
    reveal_strlit("mail");
    assert("mail"@.len() == 4);
    assert("mail"@[0] == 'm' && "mail"@[1] == 'a' && "mail"@[2] == 'i' && "mail"@[3] == 'l');
}

proof fn lemma_gmail_facts()
    ensures
        "gmail"@.len() == 5,
        !"gmail"@.contains('o'),
        !"gmail"@.contains('d'),
        !"gmail"@.contains('n'),
        !"gmail"@.contains('y'),
        "gmail"@.contains('m'),
        spec_no_ascii_upper("gmail"@),
{
    reveal_strlit("gmail");
    assert("gmail"@.len() == 5);
    assert("gmail"@[0] == 'g' && "gmail"@[1] == 'm' && "gmail"@[2] == 'a' && "gmail"@[3] == 'i'
        && "gmail"@[4] == 'l');
}

proof fn lemma_logs_facts()
    ensures
        "logs"@.len() == 4,
        !"logs"@.contains('m'),
        !"logs"@.contains('d'),
        !"logs"@.contains('n'),
        !"logs"@.contains('y'),
        "logs"@.contains('o'),
        "logs"@.contains('l'),
        spec_no_ascii_upper("logs"@),
{
    reveal_strlit("logs");
    assert("logs"@.len() == 4);
    assert("logs"@[0] == 'l' && "logs"@[1] == 'o' && "logs"@[2] == 'g' && "logs"@[3] == 's');
}

proof fn lemma_log_facts()
    ensures
        "log"@.len() == 3,
        !"log"@.contains('d'),
        !"log"@.contains('n'),
        !"log"@.contains('y'),
        "log"@.contains('o'),
        "log"@.contains('l'),
        spec_no_ascii_upper("log"@),
{
    reveal_strlit("log");
    assert("log"@.len() == 3);
    assert("log"@[0] == 'l' && "log"@[1] == 'o' && "log"@[2] == 'g');
}

proof fn lemma_dev_facts()
    ensures
        "dev"@.len() == 3,
        !"dev"@.contains('l'),
        !"dev"@.contains('n'),
        !"dev"@.contains('y'),
        "dev"@.contains('d'),
        spec_no_ascii_upper("dev"@),
{
    reveal_strlit("dev");
    assert("dev"@.len() == 3);
    assert("dev"@[0] == 'd' && "dev"@[1] == 'e' && "dev"@[2] == 'v');
}

proof fn lemma_ng_facts()
    ensures
        "ng"@.len() == 2,
        !"ng"@.contains('y'),
        "ng"@.contains('n'),
        "ng"@.contains('g'),
        spec_no_ascii_upper("ng"@),
{
    reveal_strlit("ng");
    assert("ng"@.len() == 2);
    assert("ng"@[0] == 'n' && "ng"@[1] == 'g');
}

proof fn lemma_yt_facts()
    ensures
        "yt"@.len() == 2,
        !"yt"@.contains('n'),
        "yt"@.contains('y'),
        spec_no_ascii_upper("yt"@),
{
    reveal_strlit("yt");
    assert("yt"@.len() == 2);
    assert("yt"@[0] == 'y' && "yt"@[1] == 't');
}

proof fn lemma_new_facts()
    ensures
        "new"@.len() == 3,
        !"new"@.contains('l'),
        !"new"@.contains('d'),
        !"new"@.contains('g'),
        !"new"@.contains('y'),
        "new"@.contains('n'),
        spec_no_ascii_upper("new"@),
{
    reveal_strlit("new");
    assert("new"@.len() == 3);
    assert("new"@[0] == 'n' && "new"@[1] == 'e' && "new"@[2] == 'w');
}

/// No declared trigger token holds an ASCII capital.
proof fn lemma_tokens_lowercase()
    ensures
        forall|k: int|
            0 <= k < spec_trigger_tokens().len() ==> spec_no_ascii_upper(spec_trigger_tokens()[k]),
{
    lemma_github_facts();
    lemma_mail_facts();
    lemma_gmail_facts();
    lemma_logs_facts();
    lemma_log_facts();
    lemma_dev_facts();
    lemma_ng_facts();
    lemma_yt_facts();
    lemma_new_facts();
}

/// A declared token, given verbatim as the input, can only be matched by
/// tokens of its own alias: every earlier declared token either is longer
/// than the input or lacks one of its characters.
proof fn lemma_identify_token(s: Seq<char>, i: int)
    requires
        0 <= i < spec_trigger_tokens().len(),
        forall|k: int| 0 <= k < i ==> !spec_is_subseq_of(s, spec_trigger_tokens()[k]),
        spec_no_ascii_upper(s) ==> spec_is_subseq_of(s, spec_trigger_tokens()[i]),
    ensures
        s == "github"@ ==> spec_alias_at(i) == SpecialUrl::Github,
        s == "mail"@ ==> spec_alias_at(i) == SpecialUrl::Gmail,
        s == "gmail"@ ==> spec_alias_at(i) == SpecialUrl::Gmail,
        s == "logs"@ ==> spec_alias_at(i) == SpecialUrl::Logs,
        s == "log"@ ==> spec_alias_at(i) == SpecialUrl::Logs,
        s == "dev"@ ==> spec_alias_at(i) == SpecialUrl::DevServer,
        s == "ng"@ ==> spec_alias_at(i) == SpecialUrl::Ng,
        s == "yt"@ ==> spec_alias_at(i) == SpecialUrl::Yt,
        s == "new"@ ==> spec_alias_at(i) == SpecialUrl::Default,
{
    lemma_github_facts();
    lemma_mail_facts();
    lemma_gmail_facts();
    lemma_logs_facts();
    lemma_log_facts();
    lemma_dev_facts();
    lemma_ng_facts();
    lemma_yt_facts();
    lemma_new_facts();
    lemma_tokens_lowercase();
    assert forall|k: int|
        0 <= k < spec_trigger_tokens().len() && spec_is_subseq_of(
            s,
            spec_trigger_tokens()[k],
        ) implies s.len() <= spec_trigger_tokens()[k].len() by {
        lemma_subseq_len(s, spec_trigger_tokens()[k]);
    }
    if s == "github"@ {
        assert(spec_is_subseq_of(s, spec_trigger_tokens()[i]));
        assert(i == 0);
    } else if s == "mail"@ {
        lemma_not_subseq("mail"@, "github"@, 'm');
        lemma_not_subseq("mail"@, "logs"@, 'm');
        assert(i == 1 || i == 2);
    } else if s == "gmail"@ {
        lemma_not_subseq("gmail"@, "github"@, 'm');
        assert(i == 2);
    } else if s == "logs"@ {
        lemma_not_subseq("logs"@, "github"@, 'l');
        lemma_not_subseq("logs"@, "mail"@, 'o');
        lemma_not_subseq("logs"@, "gmail"@, 'o');
        assert(i == 3);
    } else if s == "log"@ {
        lemma_not_subseq("log"@, "github"@, 'l');
        lemma_not_subseq("log"@, "mail"@, 'o');
        lemma_not_subseq("log"@, "gmail"@, 'o');
        lemma_not_subseq("log"@, "dev"@, 'l');
        lemma_not_subseq("log"@, "new"@, 'l');
        assert(i == 3 || i == 4);
    } else if s == "dev"@ {
        lemma_not_subseq("dev"@, "github"@, 'd');
        lemma_not_subseq("dev"@, "mail"@, 'd');
        lemma_not_subseq("dev"@, "gmail"@, 'd');
        lemma_not_subseq("dev"@, "logs"@, 'd');
        lemma_not_subseq("dev"@, "log"@, 'd');
        lemma_not_subseq("dev"@, "new"@, 'd');
        assert(i == 5);
    } else if s == "ng"@ {
        lemma_not_subseq("ng"@, "github"@, 'n');
        lemma_not_subseq("ng"@, "mail"@, 'n');
        lemma_not_subseq("ng"@, "gmail"@, 'n');
        lemma_not_subseq("ng"@, "logs"@, 'n');
        lemma_not_subseq("ng"@, "log"@, 'n');
        lemma_not_subseq("ng"@, "dev"@, 'n');
        lemma_not_subseq("ng"@, "yt"@, 'n');
        lemma_not_subseq("ng"@, "new"@, 'g');
        assert(i == 6);
    } else if s == "yt"@ {
        lemma_not_subseq("yt"@, "github"@, 'y');
        lemma_not_subseq("yt"@, "mail"@, 'y');
        lemma_not_subseq("yt"@, "gmail"@, 'y');
        lemma_not_subseq("yt"@, "logs"@, 'y');
        lemma_not_subseq("yt"@, "log"@, 'y');
        lemma_not_subseq("yt"@, "dev"@, 'y');
        lemma_not_subseq("yt"@, "ng"@, 'y');
        lemma_not_subseq("yt"@, "new"@, 'y');
        assert(i == 7);
    } else if s == "new"@ {
        lemma_not_subseq("new"@, "github"@, 'n');
        lemma_not_subseq("new"@, "mail"@, 'n');
        lemma_not_subseq("new"@, "gmail"@, 'n');
        lemma_not_subseq("new"@, "logs"@, 'n');
        lemma_not_subseq("new"@, "log"@, 'n');
        lemma_not_subseq("new"@, "dev"@, 'n');
        assert(i == 8);
    }
}

/// An input that no declared token matches is itself no declared token.
proof fn lemma_no_match_is_no_token(s: Seq<char>)
    requires
        forall|k: int|
            0 <= k < spec_trigger_tokens().len() ==> !spec_is_subseq_of(
                s,
                spec_trigger_tokens()[k],
            ),
    ensures
        s != "github"@,
        s != "mail"@,
        s != "gmail"@,
        s != "logs"@,
        s != "log"@,
        s != "dev"@,
        s != "ng"@,
        s != "yt"@,
        s != "new"@,
{
    lemma_subseq_refl(s);
    assert(spec_trigger_tokens()[0] == "github"@);
    assert(spec_trigger_tokens()[1] == "mail"@);
    assert(spec_trigger_tokens()[2] == "gmail"@);
    assert(spec_trigger_tokens()[3] == "logs"@);
    assert(spec_trigger_tokens()[4] == "log"@);
    assert(spec_trigger_tokens()[5] == "dev"@);
    assert(spec_trigger_tokens()[6] == "ng"@);
    assert(spec_trigger_tokens()[7] == "yt"@);
    assert(spec_trigger_tokens()[8] == "new"@);
}

/// When no token before position `i` scores, the first match from position
/// `j` is the first match from position `i`.
proof fn lemma_first_match_from_step(s: Seq<char>, j: int, i: int)
    requires
        0 <= j <= i <= spec_trigger_tokens().len(),
        forall|k: int| j <= k < i ==> fuzzy_score(spec_trigger_tokens()[k], s).is_none(),
    ensures
        spec_first_match_from(s, j) == spec_first_match_from(s, i),
    decreases i - j,
{
    if j < i {
        lemma_first_match_from_step(s, j + 1, i);
    }
}

} // verus!
