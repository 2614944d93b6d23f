//! Verified text utilities: prefix and substring tests, repeated prefix
//! stripping, and character-level string equality, together with the two
//! trusted wrappers around std's locale-independent case folding and
//! whitespace trimming.

use vstd::prelude::*;
use vstd::string::StrSliceExecFns;

verus! {

/// `s` begins with the characters of `p`.
pub open spec fn starts_with_spec(s: Seq<char>, p: Seq<char>) -> bool {
    p.len() <= s.len() && s.subrange(0, p.len() as int) == p
}

/// The characters of `p` occur in `s` starting at position `i`.
pub open spec fn contains_at(s: Seq<char>, p: Seq<char>, i: int) -> bool {
    0 <= i && i + p.len() <= s.len() && s.subrange(i, i + p.len()) == p
}

/// The characters of `p` occur somewhere in `s`.
pub open spec fn contains_spec(s: Seq<char>, p: Seq<char>) -> bool {
    exists|i: int| contains_at(s, p, i)
}

/// `s` with every leading repetition of `p` removed.
pub open spec fn strip_prefix_rep(s: Seq<char>, p: Seq<char>) -> Seq<char>
    decreases s.len(),
{
    if p.len() > 0 && starts_with_spec(s, p) {
        strip_prefix_rep(s.skip(p.len() as int), p)
    } else {
        s
    }
}

pub fn str_starts_with(s: &str, p: &str) -> (r: bool)
    ensures
        r == starts_with_spec(s@, p@),
{
    let n = p.unicode_len();
    if n > s.unicode_len() {
        return false;
    }
    let mut i: usize = 0;
    while i < n
        invariant
            i <= n,
            n == p@.len(),
            n <= s@.len(),
            forall|j: int| 0 <= j < i ==> s@[j] == p@[j],
        decreases n - i,
    {
        if s.get_char(i) != p.get_char(i) {
            assert(s@.subrange(0, p@.len() as int)[i as int] == s@[i as int]);
            return false;
        }
        i += 1;
    }
    assert(s@.subrange(0, p@.len() as int) =~= p@);
    true
}

pub fn str_eq(a: &str, b: &str) -> (r: bool)
    ensures
        r == (a@ == b@),
{
    if a.unicode_len() != b.unicode_len() {
        return false;
    }
    let r = str_starts_with(a, b);
    proof {
        assert(a@.subrange(0, b@.len() as int) =~= a@);
    }
    r
}

pub fn str_contains(s: &str, p: &str) -> (r: bool)
    ensures
        r == contains_spec(s@, p@),
{
    let n = s.unicode_len();
    let m = p.unicode_len();
    if m > n {
        assert(forall|i: int| !contains_at(s@, p@, i));
        return false;
    }
    if m == 0 {
        assert(contains_at(s@, p@, 0)) by {
            assert(s@.subrange(0, 0) =~= p@);
        }
        return true;
    }
    let last = n - m;
    let mut i: usize = 0;
    while i <= last
        invariant
            m == p@.len(),
            n == s@.len(),
            1 <= m <= n,
            last == n - m,
            i <= last + 1,
            forall|j: int| 0 <= j < i ==> !contains_at(s@, p@, j),
        decreases last + 1 - i,
    {
        let tail = s.substring_char(i, n);
        if str_starts_with(tail, p) {
            assert(contains_at(s@, p@, i as int)) by {
                assert(tail@.subrange(0, p@.len() as int) =~= s@.subrange(
                    i as int,
                    i + p@.len(),
                ));
            }
            return true;
        }
        assert(!contains_at(s@, p@, i as int)) by {
            if contains_at(s@, p@, i as int) {
                assert(tail@.subrange(0, p@.len() as int) =~= s@.subrange(
                    i as int,
                    i + p@.len(),
                ));
            }
        }
        i += 1;
    }
    assert(forall|j: int| i <= j ==> !contains_at(s@, p@, j));
    false
}

/// std's `str::trim_start_matches`, proved directly: remove every leading
/// repetition of `p` from `s`.
pub fn str_trim_start_matches<'a>(s: &'a str, p: &str) -> (r: &'a str)
    ensures
        r@ == strip_prefix_rep(s@, p@),
{
    if p.unicode_len() == 0 {
        return s;
    }
    let mut r = s;
    loop
        invariant
            p@.len() > 0,
            strip_prefix_rep(s@, p@) == strip_prefix_rep(r@, p@),
        ensures
            !starts_with_spec(r@, p@),
            strip_prefix_rep(s@, p@) == strip_prefix_rep(r@, p@),
        decreases r@.len(),
    {
        if !str_starts_with(r, p) {
            break;
        }
        let next = r.substring_char(p.unicode_len(), r.unicode_len());
        assert(next@ =~= r@.skip(p@.len() as int));
        r = next;
    }
    r
}

/// What `str::to_lowercase` returns: a function of the characters alone.
pub uninterp spec fn lower_of(s: Seq<char>) -> Seq<char>;

/// Relies on `str::to_lowercase`: lowercases according to the Unicode
/// tables, with no locale or environment input, so the result depends on
/// the characters alone.
#[verifier::external_body]
pub(crate) fn to_lowercase(s: &str) -> (r: String)
    ensures
        r@ == lower_of(s@),
        s@.len() == 0 ==> r@.len() == 0,
{
    s.to_lowercase()
}

/// What `str::trim` returns: a function of the characters alone.
pub uninterp spec fn trim_of(s: Seq<char>) -> Seq<char>;

/// Relies on `str::trim`: removes leading and trailing Unicode whitespace,
/// a function of the characters alone.
#[verifier::external_body]
pub(crate) fn trim_ends(s: &str) -> (r: &str)
    ensures
        r@ == trim_of(s@),
        s@.len() == 0 ==> r@.len() == 0,
{
    s.trim()
}

} // verus!
