//! Characters and strings: case folding, character-vector conversions, and
//! substring search.

use vstd::prelude::*;
use vstd::string::StrSliceExecFns;

verus! {

/// The sequence of characters that Unicode lowercasing yields for `s`:
/// a function of the characters alone.
pub uninterp spec fn lower_of(s: Seq<char>) -> Seq<char>;

/// Relies on `str::to_lowercase`: Unicode lowercasing, whose result depends
/// on the characters of `s` alone; a string made of lowercase ASCII letters
/// is its own lowercase.
#[verifier::external_body]
pub fn to_lowercase(s: &str) -> (r: String)
    ensures
        r@ == lower_of(s@),
        (forall|k: int| 0 <= k < s@.len() ==> 97 <= (#[trigger] s@[k]) as int <= 122) ==> r@
            == s@,
{
    s.to_lowercase()
}

/// Relies on `Iterator::collect` building a `String` from the characters of
/// the vector, in order.
#[verifier::external_body]
pub fn chars_to_string(v: &Vec<char>) -> (r: String)
    ensures
        r@ == v@,
{
    v.iter().collect()
}

/// The characters of `s` as a vector.
pub fn str_to_chars(s: &str) -> (r: Vec<char>)
    ensures
        r@ == s@,
{
    let n = s.unicode_len();
    let mut v: Vec<char> = Vec::new();
    let mut i: usize = 0;
    while i < n
        invariant
            i <= n,
            n == s@.len(),
            v@ == s@.subrange(0, i as int),
        decreases n - i,
    {
        v.push(s.get_char(i));
        i = i + 1;
        proof {
            assert(v@ =~= s@.subrange(0, i as int));
        }
    }
    proof {
        assert(v@ =~= s@);
    }
    v
}

/// `needle` occurs as a contiguous run inside `haystack`.
pub open spec fn contains_seq(haystack: Seq<char>, needle: Seq<char>) -> bool {
    exists|k: int|
        0 <= k && k + needle.len() <= haystack.len() && #[trigger] haystack.subrange(
            k,
            k + needle.len(),
        ) == needle
}

/// Whether `needle` occurs at position `k` of `haystack`.
fn matches_at(haystack: &Vec<char>, needle: &Vec<char>, k: usize) -> (r: bool)
    requires
        k + needle@.len() <= haystack@.len(),
    ensures
        r == (haystack@.subrange(k as int, k + needle@.len()) == needle@),
{
    let hlen = haystack.len();
    let nlen = needle.len();
    let mut j: usize = 0;
    while j < nlen
        invariant
            j <= nlen,
            nlen == needle@.len(),
            hlen == haystack@.len(),
            k + needle@.len() <= haystack@.len(),
            forall|t: int| 0 <= t < j ==> haystack@[k + t] == needle@[t],
        decreases nlen - j,
    {
        if haystack[k + j] != needle[j] {
            proof {
                assert(haystack@.subrange(k as int, k + needle@.len())[j as int] == haystack@[k
                    + j]);
            }
            return false;
        }
        j = j + 1;
    }
    proof {
        assert(haystack@.subrange(k as int, k + needle@.len()) =~= needle@);
    }
    true
}

/// Whether `needle` occurs as a substring of `haystack`.
pub fn string_contains(haystack: &str, needle: &str) -> (r: bool)
    ensures
        r == contains_seq(haystack@, needle@),
{
    let h = str_to_chars(haystack);
    let n = str_to_chars(needle);
    if n.len() == 0 {
        proof {
            assert(haystack@.subrange(0, 0 + needle@.len() as int) =~= needle@);
        }
        return true;
    }
    if n.len() > h.len() {
        return false;
    }
    let last = h.len() - n.len();
    let mut k: usize = 0;
    while k <= last
        invariant
            n@.len() >= 1,
            last < usize::MAX,
            last + n@.len() == h@.len(),
            h@ == haystack@,
            n@ == needle@,
            k <= last + 1,
            forall|t: int|
                0 <= t < k ==> #[trigger] haystack@.subrange(t, t + needle@.len()) != needle@,
        decreases last + 1 - k,
    {
        if matches_at(&h, &n, k) {
            return true;
        }
        k = k + 1;
    }
    false
}

} // verus!
