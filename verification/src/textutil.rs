//! Verified text helpers: substring search and removal of every occurrence
//! of a pattern, both stated over character sequences.

use vstd::prelude::*;
use vstd::string::StrSliceExecFns;
use vstd::string::StringExecFns;

verus! {

/// Relies on `String::push`: appends the one character to the end of the
/// string.
#[verifier::external_body]
pub(crate) fn push_char(s: &mut String, c: char)
    ensures
        final(s)@ == old(s)@.push(c),
{
    s.push(c);
}

/// The pattern occurs in `hay` starting at character position `i`.
pub open spec fn match_at(hay: Seq<char>, needle: Seq<char>, i: int) -> bool {
    0 <= i && i + needle.len() <= hay.len() && hay.subrange(i, i + needle.len() as int) == needle
}

/// The pattern occurs somewhere in `hay`.
pub open spec fn spec_contains(hay: Seq<char>, needle: Seq<char>) -> bool {
    exists|i: int| match_at(hay, needle, i)
}

/// Whether the pattern occurs at character position `i`.
pub fn match_at_exec(hay: &str, needle: &str, i: usize) -> (b: bool)
    requires
        i + needle@.len() <= hay@.len(),
        hay@.len() <= usize::MAX,
    ensures
        b == match_at(hay@, needle@, i as int),
{
    let nl = needle.unicode_len();
    let mut k: usize = 0;
    while k < nl
        invariant
            k <= nl,
            nl == needle@.len(),
            i + nl <= hay@.len(),
            hay@.len() <= usize::MAX,
            forall|j: int| 0 <= j < k ==> hay@[i + j] == needle@[j],
        decreases nl - k,
    {
        if hay.get_char(i + k) != needle.get_char(k) {
            proof {
                assert(hay@.subrange(i as int, i + needle@.len() as int)[k as int] != needle@[
                    k as int
                ]);
            }
            return false;
        }
        k = k + 1;
    }
    proof {
        assert(hay@.subrange(i as int, i + needle@.len() as int) =~= needle@);
    }
    true
}

/// Substring search; used to recognize the layout engine's success line in
/// its combined output.
pub fn contains_sub(hay: &str, needle: &str) -> (b: bool)
    ensures
        b == spec_contains(hay@, needle@),
{
    let hl = hay.unicode_len();
    let nl = needle.unicode_len();
    if nl > hl {
        proof {
            assert(forall|i: int| !match_at(hay@, needle@, i));
        }
        return false;
    }
    if nl == 0 {
        proof {
            assert(hay@.subrange(0, 0) =~= needle@);
            assert(match_at(hay@, needle@, 0));
        }
        return true;
    }
    let mut i: usize = 0;
    while i <= hl - nl
        invariant
            hl == hay@.len(),
            nl == needle@.len(),
            0 < nl <= hl,
            i <= hl - nl + 1,
            forall|j: int| 0 <= j < i ==> !match_at(hay@, needle@, j),
        decreases hl + 1 - i,
    {
        if match_at_exec(hay, needle, i) {
            return true;
        }
        i = i + 1;
    }
    proof {
        assert(forall|j: int| j >= i ==> !match_at(hay@, needle@, j));
    }
    false
}

/// `s` with every occurrence of the non-empty pattern removed, scanning
/// left to right; an empty pattern removes nothing.
pub open spec fn spec_remove_all(s: Seq<char>, p: Seq<char>) -> Seq<char>
    decreases s.len(),
{
    if p.len() == 0 {
        s
    } else if s.len() < p.len() {
        s
    } else if s.subrange(0, p.len() as int) == p {
        spec_remove_all(s.skip(p.len() as int), p)
    } else {
        seq![s[0]] + spec_remove_all(s.skip(1), p)
    }
}

/// Removes every occurrence of the pattern from the string; the templating
/// step uses this to turn an entry-point file name into a template name.
pub fn remove_all(s: &str, p: &str) -> (r: String)
    ensures
        r@ == spec_remove_all(s@, p@),
{
    let sl = s.unicode_len();
    let pl = p.unicode_len();
    let mut out = String::new();
    if pl == 0 {
        let copy = s.to_owned();
        return copy;
    }
    let mut i: usize = 0;
    proof {
        assert(s@.skip(0) =~= s@);
    }
    while i < sl
        invariant
            sl == s@.len(),
            pl == p@.len(),
            pl > 0,
            i <= sl,
            spec_remove_all(s@, p@) == out@ + spec_remove_all(s@.skip(i as int), p@),
        decreases sl - i,
    {
        let ghost rest = s@.skip(i as int);
        if pl <= sl - i && match_at_exec(s, p, i) {
            proof {
                assert(rest.subrange(0, p@.len() as int) =~= s@.subrange(
                    i as int,
                    i + p@.len() as int,
                ));
                assert(rest.skip(p@.len() as int) =~= s@.skip(i + pl));
            }
            i = i + pl;
        } else {
            proof {
                if rest.len() >= p@.len() {
                    assert(rest.subrange(0, p@.len() as int) =~= s@.subrange(
                        i as int,
                        i + p@.len() as int,
                    ));
                    assert(rest.subrange(0, p@.len() as int) != p@) by {
                        if pl <= sl - i {
                            assert(!match_at(s@, p@, i as int));
                        }
                    }
                }
                assert(rest[0] == s@[i as int]);
                assert(rest.skip(1) =~= s@.skip(i as int + 1));
                assert(spec_remove_all(rest, p@) == seq![s@[i as int]] + spec_remove_all(
                    s@.skip(i as int + 1),
                    p@,
                ));
            }
            let c = s.get_char(i);
            push_char(&mut out, c);
            proof {
                assert(out@ + spec_remove_all(s@.skip(i as int + 1), p@) =~= spec_remove_all(
                    s@,
                    p@,
                ));
            }
            i = i + 1;
        }
    }
    proof {
        assert(s@.skip(i as int) =~= Seq::<char>::empty());
        assert(out@ + spec_remove_all(s@.skip(i as int), p@) =~= out@);
    }
    out
}

/// Builds `a + b` as a fresh string.
pub fn join2(a: &str, b: &str) -> (r: String)
    ensures
        r@ == a@ + b@,
{
    let mut r = a.to_owned();
    r.append(b);
    r
}

/// Builds `a + b + c` as a fresh string.
pub fn join3(a: &str, b: &str, c: &str) -> (r: String)
    ensures
        r@ == a@ + b@ + c@,
{
    let mut r = a.to_owned();
    r.append(b);
    r.append(c);
    r
}

} // verus!
