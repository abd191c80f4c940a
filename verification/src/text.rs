//! Character-level string helpers: prefix and containment tests, equality,
//! right-padding and the space-to-plus substitution used by search URLs.
//! All of them operate on Unicode scalar values, never on raw bytes.

use vstd::prelude::*;
use vstd::string::StrSliceExecFns;
use vstd::string::StringExecFns;

verus! {

/// `p` stands at the start of `s`.
pub open spec fn spec_starts_with(s: Seq<char>, p: Seq<char>) -> bool {
    p.len() <= s.len() && s.subrange(0, p.len() as int) == p
}

/// Every space replaced by `+`; all other characters kept.
pub open spec fn spec_plused(s: Seq<char>) -> Seq<char> {
    s.map_values(|c: char| if c == ' ' { '+' } else { c })
}

/// `s` padded on the right with spaces up to `width` characters.
pub open spec fn spec_pad_right(s: Seq<char>, width: nat) -> Seq<char> {
    if s.len() >= width {
        s
    } else {
        s + Seq::new((width - s.len()) as nat, |i: int| ' ')
    }
}

/// Character-for-character string equality.
pub fn str_eq(a: &str, b: &str) -> (r: bool)
    ensures
        r == (a@ == b@),
{
    let an = a.unicode_len();
    let bn = b.unicode_len();
    if an != bn {
        return false;
    }
    let mut i: usize = 0;
    while i < an
        invariant
            an == a@.len(),
            an == b@.len(),
            0 <= i <= an,
            forall|j: int| 0 <= j < i ==> a@[j] == b@[j],
        decreases an - i,
    {
        if a.get_char(i) != b.get_char(i) {
            return false;
        }
        i += 1;
    }
    proof {
        assert(a@ =~= b@);
    }
    true
}

/// Character-level prefix test.
pub fn str_starts_with(s: &str, p: &str) -> (r: bool)
    ensures
        r == spec_starts_with(s@, p@),
{
    let sn = s.unicode_len();
    let pn = p.unicode_len();
    if pn > sn {
        return false;
    }
    let mut i: usize = 0;
    while i < pn
        invariant
            sn == s@.len(),
            pn == p@.len(),
            pn <= sn,
            0 <= i <= pn,
            forall|j: int| 0 <= j < i ==> s@[j] == p@[j],
        decreases pn - i,
    {
        if s.get_char(i) != p.get_char(i) {
            proof {
                assert(s@.subrange(0, pn as int)[i as int] == s@[i as int]);
            }
            return false;
        }
        i += 1;
    }
    proof {
        assert(s@.subrange(0, pn as int) =~= p@);
    }
    true
}

/// Character containment test.
pub fn str_contains_char(s: &str, c: char) -> (r: bool)
    ensures
        r == s@.contains(c),
{
    let sn = s.unicode_len();
    let mut i: usize = 0;
    while i < sn
        invariant
            sn == s@.len(),
            0 <= i <= sn,
            forall|j: int| 0 <= j < i ==> s@[j] != c,
        decreases sn - i,
    {
        if s.get_char(i) == c {
            proof {
                assert(s@[i as int] == c);
            }
            return true;
        }
        i += 1;
    }
    false
}

/// Appends `s` from character position `from` on to `out`, with every space
/// written as `+`.
pub fn append_plused(out: &mut String, s: &str, from: usize)
    requires
        from <= s@.len(),
    ensures
        final(out)@ == old(out)@ + spec_plused(s@.skip(from as int)),
{
    let sn = s.unicode_len();
    let mut i: usize = from;
    proof {
        assert(s@.subrange(from as int, from as int) =~= Seq::<char>::empty());
        assert(out@ =~= out@ + spec_plused(s@.subrange(from as int, from as int)));
    }
    while i < sn
        invariant
            sn == s@.len(),
            from <= i <= sn,
            out@ == old(out)@ + spec_plused(s@.subrange(from as int, i as int)),
        decreases sn - i,
    {
        let ghost prev = out@;
        let c = s.get_char(i);
        if c == ' ' {
            out.append("+");
            proof {
                reveal_strlit("+");
                assert("+"@ =~= seq!['+']);
            }
        } else {
            let piece = s.substring_char(i, i + 1);
            out.append(piece);
            proof {
                assert(piece@ =~= seq![s@[i as int]]);
            }
        }
        proof {
            let ghost pc: char = if s@[i as int] == ' ' { '+' } else { s@[i as int] };
            assert(out@ =~= prev + seq![pc]);
            assert(s@.subrange(from as int, i + 1 as int) =~= s@.subrange(
                from as int,
                i as int,
            ).push(s@[i as int]));
            assert(spec_plused(s@.subrange(from as int, i + 1 as int)) =~= spec_plused(
                s@.subrange(from as int, i as int),
            ).push(pc));
        }
        i += 1;
    }
    proof {
        assert(s@.subrange(from as int, sn as int) =~= s@.skip(from as int));
    }
}

/// `s` left-justified in a field of `width` characters, space-filled.
pub fn pad_right(s: &str, width: usize) -> (r: String)
    ensures
        r@ == spec_pad_right(s@, width as nat),
{
    let mut out = s.to_owned();
    let mut i = s.unicode_len();
    if i >= width {
        return out;
    }
    while i < width
        invariant
            s@.len() <= i <= width,
            out@ == s@ + Seq::new((i - s@.len()) as nat, |j: int| ' '),
        decreases width - i,
    {
        let ghost prev = out@;
        out.append(" ");
        proof {
            reveal_strlit(" ");
            assert(" "@ =~= seq![' ']);
            assert(out@ =~= s@ + Seq::new((i + 1 - s@.len()) as nat, |j: int| ' '));
        }
        i += 1;
    }
    out
}

} // verus!
