//! Character-level helpers over `str`, and the text decoding that
//! argument handling relies on.
use vstd::prelude::*;
use vstd::string::StringSliceAdditionalSpecFns;
use vstd::utf8::*;

verus! {

broadcast use vstd::utf8::encode_utf8_decode_utf8;

/// The text that a byte string holds, when it is valid UTF-8.
pub open spec fn decoded_text(bytes: Seq<u8>) -> Option<Seq<char>> {
    if valid_utf8(bytes) {
        Some(decode_utf8(bytes))
    } else {
        None
    }
}

/// `std::str::from_utf8`: the bytes read as a string slice, when they are
/// valid UTF-8. The contract claims what the standard library documents: the
/// call succeeds exactly on valid UTF-8, and the slice it returns holds those
/// very bytes.
#[verifier::external_body]
fn utf8_slice(bytes: &[u8]) -> (text: Option<&str>)
    ensures
        text is Some <==> valid_utf8(bytes@),
        text matches Some(t) ==> t.spec_bytes() == bytes@,
{
    std::str::from_utf8(bytes).ok()
}

/// Read a byte string as text; `None` when it is not valid UTF-8.
pub fn text_of(bytes: &[u8]) -> (text: Option<&str>)
    ensures
        text matches Some(t) ==> decoded_text(bytes@) == Some(t@),
        text is None ==> decoded_text(bytes@) is None,
{
    let text = utf8_slice(bytes);
    proof {
        if let Some(t) = text {
            assert(decode_utf8(encode_utf8(t@)) == t@);
        }
    }
    text
}

/// Whether `text` begins with the character `c`.
pub fn starts_with_char(text: &str, c: char) -> (b: bool)
    ensures
        b == (text@.len() > 0 && text@[0] == c),
{
    let n = text.unicode_len();
    n > 0 && text.get_char(0) == c
}

/// Whether two texts hold the same characters.
pub fn same_text(a: &str, b: &str) -> (same: bool)
    ensures
        same == (a@ == b@),
{
    let n = a.unicode_len();
    if n != b.unicode_len() {
        return false;
    }
    let mut i: usize = 0;
    while i < n
        invariant
            n == a@.len(),
            n == b@.len(),
            i <= n,
            forall|j: int| 0 <= j < i ==> a@[j] == b@[j],
        decreases n - i,
    {
        if a.get_char(i) != b.get_char(i) {
            return false;
        }
        i = i + 1;
    }
    assert(a@ =~= b@);
    true
}

/// Whether `i` is the position of the first `c` in `s`.
pub open spec fn first_index_at(s: Seq<char>, c: char, i: int) -> bool {
    &&& 0 <= i < s.len()
    &&& s[i] == c
    &&& forall|j: int| 0 <= j < i ==> s[j] != c
}

/// The position of the first `c` in `text`, if any.
pub fn first_index_of(text: &str, c: char) -> (found: Option<usize>)
    ensures
        found matches Some(i) ==> first_index_at(text@, c, i as int),
        found is None ==> forall|j: int| 0 <= j < text@.len() ==> text@[j] != c,
{
    let n = text.unicode_len();
    let mut i: usize = 0;
    while i < n
        invariant
            n == text@.len(),
            i <= n,
            forall|j: int| 0 <= j < i ==> text@[j] != c,
        decreases n - i,
    {
        if text.get_char(i) == c {
            return Some(i);
        }
        i = i + 1;
    }
    None
}

/// Lemma: a first position is unique.
pub proof fn lemma_first_index_unique(s: Seq<char>, c: char, i: int, k: int)
    requires
        first_index_at(s, c, i),
        first_index_at(s, c, k),
    ensures
        i == k,
{
    if i < k {
        assert(s[i] != c);
    } else if k < i {
        assert(s[k] != c);
    }
}

/// ASCII lower-casing of one character, as `char::to_ascii_lowercase`.
pub open spec fn lower_char(c: char) -> char {
    if 'A' <= c && c <= 'Z' {
        ((c as u32) + 32) as char
    } else {
        c
    }
}

/// ASCII lower-casing of a text, as `str::to_ascii_lowercase`: only the
/// letters `A` to `Z` change.
pub open spec fn ascii_lower(s: Seq<char>) -> Seq<char> {
    s.map_values(|c: char| lower_char(c))
}

fn lower_matches(c: char, l: char) -> (same: bool)
    ensures
        same == (lower_char(c) == l),
{
    if 'A' <= c && c <= 'Z' {
        (c as u32) + 32 == (l as u32)
    } else {
        c == l
    }
}

/// Whether the ASCII lower-cased `text` equals `lowered`.
pub fn lowered_equals(text: &str, lowered: &str) -> (same: bool)
    ensures
        same == (ascii_lower(text@) == lowered@),
{
    let n = text.unicode_len();
    if n != lowered.unicode_len() {
        assert(ascii_lower(text@).len() == text@.len());
        return false;
    }
    let mut i: usize = 0;
    while i < n
        invariant
            n == text@.len(),
            n == lowered@.len(),
            i <= n,
            forall|j: int| 0 <= j < i ==> lower_char(text@[j]) == lowered@[j],
        decreases n - i,
    {
        if !lower_matches(text.get_char(i), lowered.get_char(i)) {
            assert(ascii_lower(text@)[i as int] != lowered@[i as int]);
            return false;
        }
        i = i + 1;
    }
    assert(ascii_lower(text@) =~= lowered@);
    true
}

/// Whether `needle` occurs in `hay` at position `i`.
pub open spec fn occurs_at(hay: Seq<char>, needle: Seq<char>, i: int) -> bool {
    0 <= i && i + needle.len() <= hay.len() && hay.subrange(i, i + needle.len()) == needle
}

/// Whether `needle` occurs anywhere in `hay`, as `str::contains` finds it.
pub open spec fn contains_text(hay: Seq<char>, needle: Seq<char>) -> bool {
    exists|i: int| occurs_at(hay, needle, i)
}

fn matches_at(hay: &str, needle: &str, i: usize) -> (found: bool)
    requires
        i + needle@.len() <= hay@.len(),
    ensures
        found == occurs_at(hay@, needle@, i as int),
{
    let n = hay.unicode_len();
    let m = needle.unicode_len();
    let mut k: usize = 0;
    while k < m
        invariant
            m == needle@.len(),
            n == hay@.len(),
            i + m <= hay@.len(),
            k <= m,
            forall|j: int| 0 <= j < k ==> hay@[i + j] == needle@[j],
        decreases m - k,
    {
        if hay.get_char(i + k) != needle.get_char(k) {
            assert(hay@.subrange(i as int, i + m)[k as int] != needle@[k as int]);
            return false;
        }
        k = k + 1;
    }
    assert(hay@.subrange(i as int, i + m) =~= needle@);
    true
}

/// Whether `needle` occurs in `hay`.
pub fn text_contains(hay: &str, needle: &str) -> (found: bool)
    ensures
        found == contains_text(hay@, needle@),
{
    let n = hay.unicode_len();
    let m = needle.unicode_len();
    if m > n {
        assert forall|i: int| !occurs_at(hay@, needle@, i) by {}
        return false;
    }
    if m == 0 {
        assert(hay@.subrange(0, 0) =~= needle@);
        assert(occurs_at(hay@, needle@, 0));
        return true;
    }
    let mut i: usize = 0;
    while i <= n - m
        invariant
            n == hay@.len(),
            m == needle@.len(),
            1 <= m <= n,
            i <= n - m + 1,
            forall|j: int| 0 <= j < i ==> !occurs_at(hay@, needle@, j),
        decreases n - m + 1 - i,
    {
        if matches_at(hay, needle, i) {
            return true;
        }
        i = i + 1;
    }
    assert forall|j: int| !occurs_at(hay@, needle@, j) by {
        if 0 <= j < i {
        }
    }
    false
}

} // verus!
