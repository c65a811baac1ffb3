//! Small text utilities the rest of the library builds on: Unicode
//! whitespace, UTF-8 decoding, trimming and whole-word search.

use vstd::prelude::*;
use vstd::string::*;
use vstd::utf8::*;

verus! {

/// The Unicode `White_Space` property, which `char::is_whitespace` tests:
/// tab through carriage return, space, next line, no-break space, Ogham
/// space mark, the spaces from en quad to hair space, the line and paragraph
/// separators, narrow no-break space, medium mathematical space and
/// ideographic space.
pub open spec fn spec_is_whitespace(c: char) -> bool {
    let v = c as u32;
    ||| 0x09 <= v <= 0x0D
    ||| v == 0x20
    ||| v == 0x85
    ||| v == 0xA0
    ||| v == 0x1680
    ||| 0x2000 <= v <= 0x200A
    ||| v == 0x2028
    ||| v == 0x2029
    ||| v == 0x202F
    ||| v == 0x205F
    ||| v == 0x3000
}

/// Whether `c` is Unicode whitespace, as `char::is_whitespace` answers.
pub fn is_unicode_whitespace(c: char) -> (b: bool)
    ensures
        b == spec_is_whitespace(c),
{
    let v = c as u32;
    (0x09 <= v && v <= 0x0D) || v == 0x20 || v == 0x85 || v == 0xA0 || v == 0x1680 || (0x2000 <= v
        && v <= 0x200A) || v == 0x2028 || v == 0x2029 || v == 0x202F || v == 0x205F || v == 0x3000
}

/// Calls `String::from_utf8` on a copy of `bytes`.
///
/// Trusted: std returns `Ok` exactly when the bytes are valid UTF-8, and the
/// string then holds the decoded characters.
#[verifier::external_body]
pub(crate) fn decode_utf8_bytes(bytes: &[u8]) -> (r: Option<String>)
    ensures
        r is Some <==> valid_utf8(bytes@),
        r matches Some(s) ==> s@ == decode_utf8(bytes@),
{
    String::from_utf8(bytes.to_vec()).ok()
}

/// Index of the first non-whitespace character at or after `i`
/// (or the length of `s` when there is none).
pub open spec fn first_non_whitespace(s: Seq<char>, i: int) -> int
    decreases s.len() - i,
{
    if i < 0 || i >= s.len() {
        if i < 0 { 0 } else { s.len() as int }
    } else if spec_is_whitespace(s[i]) {
        first_non_whitespace(s, i + 1)
    } else {
        i
    }
}

/// Walking back from position `j`, the end of the text once trailing
/// whitespace is dropped, never going below `lo`.
pub open spec fn end_without_whitespace(s: Seq<char>, lo: int, j: int) -> int
    decreases j - lo,
{
    if j <= lo {
        lo
    } else if j > s.len() {
        s.len() as int
    } else if spec_is_whitespace(s[j - 1]) {
        end_without_whitespace(s, lo, j - 1)
    } else {
        j
    }
}

/// `s` with leading and trailing whitespace removed: what `str::trim` gives.
pub open spec fn spec_trim(s: Seq<char>) -> Seq<char> {
    let a = first_non_whitespace(s, 0);
    s.subrange(a, end_without_whitespace(s, a, s.len() as int))
}

/// Removes leading and trailing whitespace, as `str::trim` does.
pub fn trim(s: &str) -> (r: &str)
    ensures
        r@ == spec_trim(s@),
{
    let n = s.unicode_len();
    let mut a: usize = 0;
    while a < n && is_unicode_whitespace(s.get_char(a))
        invariant
            n == s@.len(),
            a <= n,
            first_non_whitespace(s@, 0) == first_non_whitespace(s@, a as int),
        decreases n - a,
    {
        a = a + 1;
    }
    let mut b: usize = n;
    while b > a && is_unicode_whitespace(s.get_char(b - 1))
        invariant
            n == s@.len(),
            a <= b <= n,
            first_non_whitespace(s@, 0) == a,
            end_without_whitespace(s@, a as int, n as int) == end_without_whitespace(
                s@,
                a as int,
                b as int,
            ),
        decreases b - a,
    {
        b = b - 1;
    }
    s.substring_char(a, b)
}

/// The whole word `w` stands in `s` at position `i`: the characters there
/// spell `w`, with whitespace (or the end of the text) on both sides.
pub open spec fn word_at(s: Seq<char>, w: Seq<char>, i: int) -> bool {
    &&& 0 <= i
    &&& i + w.len() <= s.len()
    &&& s.subrange(i, i + w.len()) == w
    &&& (i == 0 || spec_is_whitespace(s[i - 1]))
    &&& (i + w.len() == s.len() || spec_is_whitespace(s[i + w.len()]))
}

/// `w` is one of the whitespace-separated words of `s`. For a non-empty `w`
/// without whitespace this is `s.split_whitespace().any(|t| t == w)`.
pub open spec fn has_word(s: Seq<char>, w: Seq<char>) -> bool {
    exists|i: int| word_at(s, w, i)
}

/// Whether the whole word `word` stands in `s` at character position `i`.
fn word_at_index(s: &str, word: &str, i: usize) -> (b: bool)
    requires
        i + word@.len() <= s@.len(),
    ensures
        b == word_at(s@, word@, i as int),
{
    let n = s.unicode_len();
    let m = word.unicode_len();
    let mut k: usize = 0;
    let mut same = true;
    while k < m
        invariant
            n == s@.len(),
            m == word@.len(),
            i + m <= n,
            k <= m,
            same == (forall|t: int| 0 <= t < k ==> s@[i + t] == word@[t]),
        decreases m - k,
    {
        if s.get_char(i + k) != word.get_char(k) {
            same = false;
        }
        k = k + 1;
    }
    if same {
        assert(s@.subrange(i as int, i + m) =~= word@);
    } else {
        assert(s@.subrange(i as int, i + m) != word@) by {
            let t = choose|t: int| 0 <= t < m && s@[i + t] != word@[t];
            assert(s@.subrange(i as int, i + m)[t] == s@[i + t]);
        }
    }
    let left_ok = i == 0 || is_unicode_whitespace(s.get_char(i - 1));
    let right_ok = i + m == n || is_unicode_whitespace(s.get_char(i + m));
    same && left_ok && right_ok
}

/// Whether `word` is one of the whitespace-separated words of `s`.
pub fn contains_word(s: &str, word: &str) -> (b: bool)
    ensures
        b == has_word(s@, word@),
{
    let n = s.unicode_len();
    let m = word.unicode_len();
    if m > n {
        assert forall|i: int| !word_at(s@, word@, i) by {}
        return false;
    }
    let last = n - m;
    let mut i: usize = 0;
    while i < last
        invariant
            n == s@.len(),
            m == word@.len(),
            last == n - m,
            i <= last,
            forall|j: int| 0 <= j < i ==> !word_at(s@, word@, j),
        decreases last - i,
    {
        if word_at_index(s, word, i) {
            return true;
        }
        i = i + 1;
    }
    if word_at_index(s, word, last) {
        return true;
    }
    assert forall|j: int| !word_at(s@, word@, j) by {
        if 0 <= j < i {
        }
    }
    false
}

} // verus!
