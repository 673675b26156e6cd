//! Unsigned decimal numbers as the feed writes them: a run of ASCII digits.

use vstd::prelude::*;

verus! {

/// `b` is one of the ASCII digits.
pub open spec fn is_digit(b: u8) -> bool {
    0x30 <= b <= 0x39
}

/// Every byte of `s` is an ASCII digit.
pub open spec fn all_digits(s: Seq<u8>) -> bool {
    forall|i: int| 0 <= i < s.len() ==> is_digit(#[trigger] s[i])
}

/// The number that a run of digits writes, most significant digit first.
pub open spec fn digits_value(s: Seq<u8>) -> nat
    decreases s.len(),
{
    if s.len() == 0 {
        0
    } else {
        digits_value(s.drop_last()) * 10 + (s.last() - 0x30) as nat
    }
}

/// The number that a field writes, where the field is a non-empty run of
/// digits and the number is at most `max`.
pub open spec fn number_of(s: Seq<u8>, max: nat) -> Option<nat> {
    if s.len() > 0 && all_digits(s) && digits_value(s) <= max {
        Some(digits_value(s))
    } else {
        None
    }
}

/// A run of digits writes no less than any of its prefixes.
pub proof fn lemma_prefix_value(s: Seq<u8>, n: int)
    requires
        all_digits(s),
        0 <= n <= s.len(),
    ensures
        digits_value(s.take(n)) <= digits_value(s),
    decreases s.len() - n,
{
    if n == s.len() {
        assert(s.take(n) =~= s);
    } else {
        let longer = s.take(n + 1);
        assert(longer.drop_last() =~= s.take(n));
        lemma_prefix_value(s, n + 1);
    }
}

/// Reads a field as an unsigned decimal number of at most `max`.
pub fn parse_number(field: &[u8], max: u32) -> (r: Option<u32>)
    ensures
        r matches Some(n) ==> number_of(field@, max as nat) == Some(n as nat),
        r is None ==> number_of(field@, max as nat) is None,
{
    if field.len() == 0 {
        return None;
    }
    let mut value: u64 = 0;
    let mut i: usize = 0;
    while i < field.len()
        invariant
            i <= field.len(),
            all_digits(field@.take(i as int)),
            value == digits_value(field@.take(i as int)),
            value <= max,
        decreases field.len() - i,
    {
        let b: u8 = field[i];
        if b < 0x30 || b > 0x39 {
            return None;
        }
        let next: u64 = value * 10 + (b - 0x30) as u64;
        proof {
            let longer = field@.take(i + 1);
            assert(longer.drop_last() =~= field@.take(i as int));
        }
        if next > max as u64 {
            proof {
                if all_digits(field@) {
                    lemma_prefix_value(field@, i + 1);
                }
            }
            return None;
        }
        value = next;
        i += 1;
    }
    assert(field@.take(i as int) =~= field@);
    Some(value as u32)
}

} // verus!
