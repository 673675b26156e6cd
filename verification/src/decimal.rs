//! Decimal amounts as the feed writes them, with a comma before the
//! fraction.

use crate::text::{ascii_text, is_ascii_bytes, lemma_ascii_is_utf8, str_from_utf8};
use std::str::FromStr;
use vstd::prelude::*;
use vstd::string::*;
use vstd::utf8::*;

verus! {

/// `at` is the leftmost place of the byte `b` in `s`.
pub open spec fn is_first_index(s: Seq<u8>, b: u8, at: int) -> bool {
    &&& 0 <= at < s.len()
    &&& s[at] == b
    &&& forall|before: int| 0 <= before < at ==> s[before] != b
}

/// The leftmost place of the byte `b` in `s`, if it is there at all.
pub open spec fn first_index_of(s: Seq<u8>, b: u8) -> Option<int> {
    if exists|at: int| is_first_index(s, b, at) {
        Some(choose|at: int| is_first_index(s, b, at))
    } else {
        None
    }
}

/// The field with its first comma turned into a point. Later commas, and
/// points that were there before, stay as they are.
pub open spec fn comma_to_point(field: Seq<u8>) -> Seq<u8> {
    match first_index_of(field, 0x2C) {
        Some(at) => field.update(at, 0x2E),
        None => field,
    }
}

/// A leftmost place is what `first_index_of` names.
pub proof fn lemma_first_index_is(s: Seq<u8>, b: u8, at: int)
    requires
        is_first_index(s, b, at),
    ensures
        first_index_of(s, b) == Some(at),
{
}

/// Turns the first comma of a field into a point.
pub fn normalize_decimal(field: &[u8]) -> (r: Vec<u8>)
    ensures
        r@ == comma_to_point(field@),
{
    let mut out: Vec<u8> = Vec::new();
    let mut seen: bool = false;
    let ghost mut place: int = 0;
    let mut i: usize = 0;
    while i < field.len()
        invariant
            i <= field.len(),
            out@.len() == i,
            seen ==> is_first_index(field@, 0x2C, place) && place < i,
            seen ==> out@ == field@.take(i as int).update(place, 0x2E),
            !seen ==> out@ == field@.take(i as int),
            !seen ==> forall|j: int| 0 <= j < i ==> field@[j] != 0x2C,
        decreases field.len() - i,
    {
        let b: u8 = field[i];
        if !seen && b == 0x2C {
            out.push(0x2E);
            seen = true;
            proof {
                place = i as int;
            }
        } else {
            out.push(b);
        }
        i += 1;
    }
    proof {
        if seen {
            lemma_first_index_is(field@, 0x2C, place);
        }
    }
    out
}

/// A text that can be handed to the number parser: ASCII, and without the
/// letter that would start an exponent.
pub open spec fn is_plain_number(text: Seq<u8>) -> bool {
    forall|i: int| 0 <= i < text.len() ==> {
        let b = #[trigger] text[i];
        b < 128 && b != 0x65 && b != 0x45
    }
}

/// What `bigdecimal::BigDecimal::from_str` makes of a text: `None` where it
/// rejects the text, else the unscaled integer of the number, in decimal
/// notation, and its scale, the count of digits right of the point.
pub uninterp spec fn decimal_parts(text: Seq<char>) -> Option<(Seq<char>, int)>;

/// Calls `bigdecimal::BigDecimal::from_str`, and takes the number apart with
/// `into_bigint_and_exponent`. Trusted: the outcome is a function of the
/// text alone, which `decimal_parts` names. Texts with an exponent are left
/// out, since the parser's arithmetic on the scale can overflow on them.
#[verifier::external_body]
fn bigdecimal_from_str(text: &str) -> (r: Option<(String, i64)>)
    requires
        is_plain_number(text.spec_bytes()),
    ensures
        r is Some <==> decimal_parts(text@) is Some,
        r matches Some(parts) ==> decimal_parts(text@) == Some((parts.0@, parts.1 as int)),
{
    match bigdecimal::BigDecimal::from_str(text) {
        Ok(number) => {
            let (unscaled, scale) = number.into_bigint_and_exponent();
            Some((unscaled.to_string(), scale))
        },
        Err(_) => None,
    }
}

/// A decimal number of any size: `digits` writes an integer, with a leading
/// `-` where it is negative, and the number is that integer divided by ten
/// to the power of `scale`.
#[derive(Clone, Debug, PartialEq, Eq)]
pub struct Decimal {
    pub digits: String,
    pub scale: i64,
}

impl View for Decimal {
    type V = (Seq<char>, int);

    open spec fn view(&self) -> (Seq<char>, int) {
        (self.digits@, self.scale as int)
    }
}

/// The number that an amount field writes: the first comma stands for the
/// decimal point, and what results goes to the number parser as it is. A
/// field that is not ASCII or holds an exponent writes no number.
pub open spec fn decimal_of(field: Seq<u8>) -> Option<(Seq<char>, int)> {
    let text = comma_to_point(field);
    if is_plain_number(text) {
        decimal_parts(ascii_text(text))
    } else {
        None
    }
}

/// Whether a text can be handed to the number parser.
fn plain_number(text: &Vec<u8>) -> (r: bool)
    ensures
        r == is_plain_number(text@),
{
    let mut i: usize = 0;
    while i < text.len()
        invariant
            i <= text.len(),
            forall|j: int| 0 <= j < i ==> {
                let b = #[trigger] text@[j];
                b < 128 && b != 0x65 && b != 0x45
            },
        decreases text.len() - i,
    {
        let b: u8 = text[i];
        if b >= 128 || b == 0x65 || b == 0x45 {
            return false;
        }
        i += 1;
    }
    true
}

/// Reads an amount field.
pub fn parse_decimal(field: &[u8]) -> (r: Option<Decimal>)
    ensures
        r is Some <==> decimal_of(field@) is Some,
        r matches Some(number) ==> decimal_of(field@) == Some(number@),
{
    let normalized = normalize_decimal(field);
    if !plain_number(&normalized) {
        return None;
    }
    proof {
        lemma_ascii_is_utf8(normalized@);
    }
    match str_from_utf8(normalized.as_slice()) {
        Some(text) => {
            proof {
                encode_utf8_decode_utf8(text@);
            }
            match bigdecimal_from_str(text) {
                Some((digits, scale)) => Some(Decimal { digits, scale }),
                None => None,
            }
        },
        None => None,
    }
}

} // verus!
