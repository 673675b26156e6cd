//! Text at the level the pipeline needs it: strings as character sequences,
//! substring search, and the two byte-to-text conversions of the source feed.

use encoding::Encoding;
use vstd::prelude::*;
use vstd::string::*;
use vstd::utf8::*;

verus! {

/// The characters of `s`, in order.
pub fn chars_of(s: &str) -> (v: Vec<char>)
    ensures
        v@ == s@,
{
    let mut v: Vec<char> = Vec::new();
    for c in it: s.chars()
        invariant
            v@ == it.seq().take(it.index()),
            it.seq() == s@,
    {
        v.push(c);
    }
    v
}

/// `pattern` stands in `text` starting at index `at`.
pub open spec fn occurs_at(text: Seq<char>, pattern: Seq<char>, at: int) -> bool {
    &&& 0 <= at
    &&& at + pattern.len() <= text.len()
    &&& text.subrange(at, at + pattern.len()) == pattern
}

/// `pattern` is a substring of `text`.
pub open spec fn contains(text: Seq<char>, pattern: Seq<char>) -> bool {
    exists|at: int| occurs_at(text, pattern, at)
}

/// `at` is the leftmost place where `pattern` stands in `text`.
pub open spec fn is_first_occurrence(text: Seq<char>, pattern: Seq<char>, at: int) -> bool {
    &&& occurs_at(text, pattern, at)
    &&& forall|before: int| 0 <= before < at ==> !occurs_at(text, pattern, before)
}

/// The leftmost place where `pattern` stands in `text`, if it stands anywhere.
pub open spec fn first_occurrence(text: Seq<char>, pattern: Seq<char>) -> Option<int> {
    if exists|at: int| is_first_occurrence(text, pattern, at) {
        Some(choose|at: int| is_first_occurrence(text, pattern, at))
    } else {
        None
    }
}

/// Two leftmost occurrences are the same place.
pub proof fn lemma_first_occurrence_unique(text: Seq<char>, pattern: Seq<char>, a: int, b: int)
    requires
        is_first_occurrence(text, pattern, a),
        is_first_occurrence(text, pattern, b),
    ensures
        a == b,
{
}

/// A leftmost occurrence is what `first_occurrence` names.
pub proof fn lemma_first_occurrence_is(text: Seq<char>, pattern: Seq<char>, at: int)
    requires
        is_first_occurrence(text, pattern, at),
    ensures
        first_occurrence(text, pattern) == Some(at),
        contains(text, pattern),
{
    let chosen = choose|i: int| is_first_occurrence(text, pattern, i);
    lemma_first_occurrence_unique(text, pattern, at, chosen);
}

/// Whether `pattern` stands in `text` at `at`.
pub fn matches_at(text: &Vec<char>, pattern: &Vec<char>, at: usize) -> (r: bool)
    ensures
        r == occurs_at(text@, pattern@, at as int),
{
    if pattern.len() > text.len() || at > text.len() - pattern.len() {
        return false;
    }
    let mut k: usize = 0;
    while k < pattern.len()
        invariant
            k <= pattern.len(),
            at + pattern.len() <= text.len(),
            forall|j: int| 0 <= j < k ==> text@[at + j] == pattern@[j],
        decreases pattern.len() - k,
    {
        if text[at + k] != pattern[k] {
            return false;
        }
        k += 1;
    }
    assert(text@.subrange(at as int, at + pattern.len()) =~= pattern@);
    true
}

/// The leftmost index at which `pattern` stands in `text`.
pub fn find(text: &Vec<char>, pattern: &Vec<char>) -> (r: Option<usize>)
    ensures
        r matches Some(at) ==> is_first_occurrence(text@, pattern@, at as int)
            && first_occurrence(text@, pattern@) == Some(at as int),
        r is None ==> first_occurrence(text@, pattern@) is None,
        r is Some <==> contains(text@, pattern@),
{
    if pattern.len() > text.len() {
        return None;
    }
    let last: usize = text.len() - pattern.len();
    let mut at: usize = 0;
    while at < last
        invariant
            last == text.len() - pattern.len(),
            at <= last,
            forall|before: int| 0 <= before < at ==> !occurs_at(text@, pattern@, before),
        decreases last - at,
    {
        if matches_at(text, pattern, at) {
            proof {
                lemma_first_occurrence_is(text@, pattern@, at as int);
            }
            return Some(at);
        }
        at += 1;
    }
    if matches_at(text, pattern, last) {
        proof {
            lemma_first_occurrence_is(text@, pattern@, last as int);
        }
        return Some(last);
    }
    None
}

/// Whether `pattern` is a substring of `text`.
pub fn has_substring(text: &Vec<char>, pattern: &str) -> (r: bool)
    ensures
        r == contains(text@, pattern@),
{
    let p = chars_of(pattern);
    find(text, &p).is_some()
}

/// The character that one byte stands for in ISO 8859-15: the code point of
/// the same number, but for the eight places where the encoding departs from
/// ISO 8859-1.
pub open spec fn latin9_char(b: u8) -> char {
    if b == 0xA4 {
        '\u{20AC}'
    } else if b == 0xA6 {
        '\u{0160}'
    } else if b == 0xA8 {
        '\u{0161}'
    } else if b == 0xB4 {
        '\u{017D}'
    } else if b == 0xB8 {
        '\u{017E}'
    } else if b == 0xBC {
        '\u{0152}'
    } else if b == 0xBD {
        '\u{0153}'
    } else if b == 0xBE {
        '\u{0178}'
    } else {
        b as char
    }
}

/// The text that a byte string stands for in ISO 8859-15, byte by byte.
pub open spec fn latin9_text(bytes: Seq<u8>) -> Seq<char> {
    Seq::new(bytes.len(), |i: int| latin9_char(bytes[i]))
}

/// Calls `encoding::all::ISO_8859_15.decode` with `DecoderTrap::Strict`.
/// Trusted: the decoder maps every byte to one character, the one that
/// `latin9_char` gives, and so never reports an invalid sequence.
#[verifier::external_body]
fn iso_8859_15_decode(bytes: &[u8]) -> (r: Result<String, String>)
    ensures
        r is Ok,
        r matches Ok(text) ==> text@ == latin9_text(bytes@),
{
    match encoding::all::ISO_8859_15.decode(bytes, encoding::DecoderTrap::Strict) {
        Ok(text) => Ok(text),
        Err(cause) => Err(cause.into_owned()),
    }
}

/// Calls `std::str::from_utf8`. Trusted: the call succeeds exactly on valid
/// UTF-8, and the string it hands back has the given bytes as its encoding.
#[verifier::external_body]
pub(crate) fn str_from_utf8(bytes: &[u8]) -> (r: Option<&str>)
    ensures
        r is Some <==> valid_utf8(bytes@),
        r matches Some(text) ==> text.spec_bytes() == bytes@,
{
    match std::str::from_utf8(bytes) {
        Ok(text) => Some(text),
        Err(_) => None,
    }
}

/// A byte string failed to decode as text.
#[derive(Clone, Copy, Debug, PartialEq, Eq, Structural)]
pub struct DecodeError;

/// Decodes a field of the source feed from its legacy single-byte encoding.
/// No byte is invalid in that encoding, so the result is always `Ok`.
pub fn decode_text(bytes: &[u8]) -> (r: Result<String, DecodeError>)
    ensures
        r matches Ok(text) && text@ == latin9_text(bytes@),
{
    match iso_8859_15_decode(bytes) {
        Ok(text) => Ok(text),
        Err(_) => Err(DecodeError),
    }
}

/// The text of a field that holds UTF-8, or `None` where it does not.
pub open spec fn utf8_text(bytes: Seq<u8>) -> Option<Seq<char>> {
    if valid_utf8(bytes) {
        Some(decode_utf8(bytes))
    } else {
        None
    }
}

/// Reads a field as UTF-8 text.
pub fn text_from_utf8(bytes: &[u8]) -> (r: Option<String>)
    ensures
        r is Some <==> valid_utf8(bytes@),
        r matches Some(text) ==> utf8_text(bytes@) == Some(text@),
{
    match str_from_utf8(bytes) {
        Some(text) => {
            proof {
                encode_utf8_decode_utf8(text@);
            }
            Some(text.to_owned())
        },
        None => None,
    }
}

/// Every byte is below 128.
pub open spec fn is_ascii_bytes(bytes: Seq<u8>) -> bool {
    forall|i: int| 0 <= i < bytes.len() ==> #[trigger] bytes[i] < 128
}

/// The characters with the same numbers as the given bytes.
pub open spec fn ascii_text(bytes: Seq<u8>) -> Seq<char> {
    Seq::new(bytes.len(), |i: int| bytes[i] as char)
}

/// Bytes below 128 are valid UTF-8 and stand for the characters with the same
/// numbers.
pub proof fn lemma_ascii_is_utf8(bytes: Seq<u8>)
    requires
        is_ascii_bytes(bytes),
    ensures
        valid_utf8(bytes),
        decode_utf8(bytes) == ascii_text(bytes),
        encode_utf8(ascii_text(bytes)) == bytes,
{
    let chars = ascii_text(bytes);
    is_ascii_chars_encode_utf8(chars);
    assert(encode_utf8(chars) =~= bytes);
    encode_utf8_valid_utf8(chars);
    encode_utf8_decode_utf8(chars);
}

} // verus!
