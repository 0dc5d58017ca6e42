use vstd::prelude::*;

verus! {

use vstd::std_specs::iter::IteratorSpec;

broadcast use vstd::string::axiom_spec_iter, vstd::string::next_postcondition;

/// The characters of `hay` starting at `i` spell out `pat`.
pub open spec fn matches_at(hay: Seq<char>, pat: Seq<char>, i: int) -> bool {
    &&& 0 <= i
    &&& i + pat.len() <= hay.len()
    &&& hay.subrange(i, i + pat.len() as int) == pat
}

/// `pat` occurs somewhere in `hay` as a contiguous run of characters.
pub open spec fn has_substring(hay: Seq<char>, pat: Seq<char>) -> bool {
    exists|i: int| matches_at(hay, pat, i)
}

/// Collects the characters of a string slice into a vector.
pub fn chars_of(s: &str) -> (r: Vec<char>)
    ensures
        r@ == s@,
{
    let mut it = s.chars();
    let mut out: Vec<char> = Vec::new();
    loop
        invariant
            it.obeys_prophetic_iter_laws(),
            IteratorSpec::decrease(&it) is Some,
            out@ + IteratorSpec::remaining(&it) == s@,
        decreases IteratorSpec::decrease(&it)->0,
    {
        let ghost prev = it;
        match it.next() {
            Some(c) => {
                proof {
                    assert(IteratorSpec::remaining(&prev).len() > 0);
                    assert(out@.push(c) + IteratorSpec::remaining(&it) =~= s@);
                }
                out.push(c);
            },
            None => {
                proof {
                    assert(IteratorSpec::remaining(&prev).len() == 0);
                    assert(IteratorSpec::remaining(&it) == IteratorSpec::remaining(&prev));
                    assert(out@ =~= s@);
                }
                return out;
            },
        }
    }
}

/// Compares two character vectors element by element.
fn chars_equal(a: &Vec<char>, b: &Vec<char>) -> (r: bool)
    ensures
        r == (a@ == b@),
{
    if a.len() != b.len() {
        return false;
    }
    let n: usize = a.len();
    let mut i: usize = 0;
    while i < n
        invariant
            n == a@.len(),
            n == b@.len(),
            i <= n,
            forall|j: int| 0 <= j < i ==> a@[j] == b@[j],
        decreases n - i,
    {
        if a[i] != b[i] {
            return false;
        }
        i = i + 1;
    }
    proof {
        assert(a@ =~= b@);
    }
    true
}

/// Whether `pat` spells out the characters of `hay` starting at `i`.
fn chars_match_at(hay: &Vec<char>, pat: &Vec<char>, i: usize) -> (r: bool)
    requires
        i + pat@.len() <= hay@.len(),
    ensures
        r == matches_at(hay@, pat@, i as int),
{
    let n: usize = pat.len();
    let hlen: usize = hay.len();
    let mut j: usize = 0;
    while j < n
        invariant
            n == pat@.len(),
            hlen == hay@.len(),
            i + n <= hlen,
            j <= n,
            forall|k: int| 0 <= k < j ==> hay@[i + k] == pat@[k],
        decreases n - j,
    {
        if hay[i + j] != pat[j] {
            proof {
                assert(hay@.subrange(i as int, i + pat@.len() as int) != pat@) by {
                    assert(hay@.subrange(i as int, i + pat@.len() as int)[j as int] == hay@[i
                        + j]);
                }
            }
            return false;
        }
        j = j + 1;
    }
    proof {
        assert(hay@.subrange(i as int, i + pat@.len() as int) =~= pat@);
    }
    true
}

/// Whether `pat` occurs in `hay` as a contiguous run of characters.
fn chars_contain(hay: &Vec<char>, pat: &Vec<char>) -> (r: bool)
    ensures
        r == has_substring(hay@, pat@),
{
    let hlen: usize = hay.len();
    let plen: usize = pat.len();
    if plen > hlen {
        proof {
            assert forall|k: int| !matches_at(hay@, pat@, k) by {}
        }
        return false;
    }
    if plen == 0 {
        proof {
            assert(hay@.subrange(0, 0) =~= pat@);
            assert(matches_at(hay@, pat@, 0));
        }
        return true;
    }
    let last: usize = hlen - plen;
    let mut i: usize = 0;
    while i <= last
        invariant
            hlen == hay@.len(),
            plen == pat@.len(),
            plen >= 1,
            last == hlen - plen,
            i <= last + 1,
            forall|k: int| 0 <= k < i ==> !matches_at(hay@, pat@, k),
        decreases last + 1 - i,
    {
        if chars_match_at(hay, pat, i) {
            return true;
        }
        i = i + 1;
    }
    proof {
        assert forall|k: int| !matches_at(hay@, pat@, k) by {
            if 0 <= k <= last as int {
                assert(!matches_at(hay@, pat@, k));
            }
        }
    }
    false
}

/// Whether two string slices hold the same characters.
pub fn str_eq(a: &str, b: &str) -> (r: bool)
    ensures
        r == (a@ == b@),
{
    let av = chars_of(a);
    let bv = chars_of(b);
    chars_equal(&av, &bv)
}

/// Whether `pat` occurs in `hay` as a contiguous run of characters.
pub fn str_contains(hay: &str, pat: &str) -> (r: bool)
    ensures
        r == has_substring(hay@, pat@),
{
    let hv = chars_of(hay);
    let pv = chars_of(pat);
    chars_contain(&hv, &pv)
}

} // verus!
