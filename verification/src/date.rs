//! Calendar dates as the feed writes them: eight digits, year, month, day.

use crate::number::{all_digits, digits_value, is_digit};
use crate::text::{ascii_text, is_ascii_bytes, lemma_ascii_is_utf8, str_from_utf8};
use chrono::Datelike;
use vstd::arithmetic::div_mod::{
    lemma_div_denominator, lemma_fundamental_div_mod, lemma_fundamental_div_mod_converse,
};
use vstd::prelude::*;
use vstd::string::*;
use vstd::utf8::*;

verus! {

/// Whether `year` has a 29th of February in the Gregorian calendar.
pub open spec fn is_leap_year(year: nat) -> bool {
    year % 4 == 0 && (year % 100 != 0 || year % 400 == 0)
}

/// The number of days of a month of a year.
pub open spec fn days_in_month(year: nat, month: nat) -> nat {
    if month == 2 {
        if is_leap_year(year) {
            29
        } else {
            28
        }
    } else if month == 4 || month == 6 || month == 9 || month == 11 {
        30
    } else {
        31
    }
}

/// Whether the calendar has this day.
pub open spec fn is_calendar_date(year: nat, month: nat, day: nat) -> bool {
    1 <= month <= 12 && 1 <= day <= days_in_month(year, month)
}

/// The year, month and day that a field writes: the field is eight digits,
/// four of the year, two of the month, two of the day, and the calendar has
/// that day. Anything else writes no date.
pub open spec fn ymd_of(field: Seq<u8>) -> Option<(nat, nat, nat)> {
    if field.len() == 8 && all_digits(field) {
        let year = digits_value(field.subrange(0, 4));
        let month = digits_value(field.subrange(4, 6));
        let day = digits_value(field.subrange(6, 8));
        if is_calendar_date(year, month, day) {
            Some((year, month, day))
        } else {
            None
        }
    } else {
        None
    }
}

/// The ASCII digit of a number below ten.
pub open spec fn digit_byte(n: nat) -> u8 {
    (0x30 + n) as u8
}

/// The eight digits that write a day of the years 0 to 9999.
pub open spec fn digits_of(ymd: (nat, nat, nat)) -> Seq<u8> {
    let (year, month, day) = ymd;
    seq![
        digit_byte(year / 1000),
        digit_byte(year / 100 % 10),
        digit_byte(year / 10 % 10),
        digit_byte(year % 10),
        digit_byte(month / 10),
        digit_byte(month % 10),
        digit_byte(day / 10),
        digit_byte(day % 10),
    ]
}

/// What two digits write.
pub proof fn lemma_two_digits(s: Seq<u8>)
    requires
        s.len() == 2,
    ensures
        digits_value(s) == (s[0] - 0x30) as nat * 10 + (s[1] - 0x30) as nat,
{
    reveal_with_fuel(digits_value, 3);
    assert(s.drop_last().drop_last().len() == 0);
    assert(s.drop_last().last() == s[0]);
}

/// What four digits write.
pub proof fn lemma_four_digits(s: Seq<u8>)
    requires
        s.len() == 4,
    ensures
        digits_value(s) == (s[0] - 0x30) as nat * 1000 + (s[1] - 0x30) as nat * 100 + (s[2]
            - 0x30) as nat * 10 + (s[3] - 0x30) as nat,
{
    let front = s.drop_last().drop_last();
    assert(front.len() == 2);
    lemma_two_digits(front);
    assert(front[0] == s[0] && front[1] == s[1]);
    assert(digits_value(s) == digits_value(s.drop_last()) * 10 + (s[3] - 0x30) as nat);
}

/// The decimal digits of a number below ten thousand.
proof fn lemma_split_four(a: nat, b: nat, c: nat, d: nat)
    requires
        a <= 9,
        b <= 9,
        c <= 9,
        d <= 9,
    ensures
        ({
            let n = a * 1000 + b * 100 + c * 10 + d;
            n / 1000 == a && n / 100 % 10 == b && n / 10 % 10 == c && n % 10 == d
        }),
{
    let n = (a * 1000 + b * 100 + c * 10 + d) as int;
    lemma_fundamental_div_mod_converse(n, 1000, a as int, (b * 100 + c * 10 + d) as int);
    lemma_fundamental_div_mod_converse(n, 100, (a * 10 + b) as int, (c * 10 + d) as int);
    lemma_fundamental_div_mod_converse((a * 10 + b) as int, 10, a as int, b as int);
    lemma_fundamental_div_mod_converse(n, 10, (a * 100 + b * 10 + c) as int, d as int);
    lemma_fundamental_div_mod_converse((a * 100 + b * 10 + c) as int, 10, (a * 10 + b) as int, c as int);
}

/// The decimal digits of a number below a hundred.
proof fn lemma_split_two(a: nat, b: nat)
    requires
        a <= 9,
        b <= 9,
    ensures
        (a * 10 + b) / 10 == a,
        (a * 10 + b) % 10 == b,
{
    lemma_fundamental_div_mod_converse((a * 10 + b) as int, 10, a as int, b as int);
}

/// A field that writes a date is the eight digits of that date: parsing and
/// writing back gives the same field.
pub proof fn lemma_date_round_trip(field: Seq<u8>)
    requires
        ymd_of(field) is Some,
    ensures
        digits_of(ymd_of(field)->0) == field,
{
    let year_part = field.subrange(0, 4);
    let month_part = field.subrange(4, 6);
    let day_part = field.subrange(6, 8);
    lemma_four_digits(year_part);
    lemma_two_digits(month_part);
    lemma_two_digits(day_part);
    assert(year_part[0] == field[0] && year_part[1] == field[1] && year_part[2] == field[2]
        && year_part[3] == field[3]);
    assert(month_part[0] == field[4] && month_part[1] == field[5]);
    assert(day_part[0] == field[6] && day_part[1] == field[7]);
    let n0 = (field[0] - 0x30) as nat;
    let n1 = (field[1] - 0x30) as nat;
    let n2 = (field[2] - 0x30) as nat;
    let n3 = (field[3] - 0x30) as nat;
    let n4 = (field[4] - 0x30) as nat;
    let n5 = (field[5] - 0x30) as nat;
    let n6 = (field[6] - 0x30) as nat;
    let n7 = (field[7] - 0x30) as nat;
    lemma_split_four(n0, n1, n2, n3);
    lemma_split_two(n4, n5);
    lemma_split_two(n6, n7);
    let (year, month, day) = ymd_of(field)->0;
    assert(year == n0 * 1000 + n1 * 100 + n2 * 10 + n3);
    assert(month == n4 * 10 + n5);
    assert(day == n6 * 10 + n7);
    let written = digits_of((year, month, day));
    assert(written[0] == field[0] && written[1] == field[1] && written[2] == field[2]
        && written[3] == field[3]);
    assert(written[4] == field[4] && written[5] == field[5]);
    assert(written[6] == field[6] && written[7] == field[7]);
    assert(written =~= field);
}

/// A number below ten thousand is the sum of its four decimal digits, each
/// times its power of ten.
proof fn lemma_join_four(n: nat)
    requires
        n <= 9999,
    ensures
        n / 1000 <= 9,
        n / 100 % 10 <= 9,
        n / 10 % 10 <= 9,
        n % 10 <= 9,
        (n / 1000) * 1000 + (n / 100 % 10) * 100 + (n / 10 % 10) * 10 + n % 10 == n,
{
    let tens = n as int / 10;
    let hundreds = tens / 10;
    let thousands = hundreds / 10;
    lemma_div_denominator(n as int, 10, 10);
    lemma_div_denominator(n as int, 100, 10);
    assert(hundreds == n as int / 100 && thousands == n as int / 1000);
    lemma_fundamental_div_mod(n as int, 10);
    lemma_fundamental_div_mod(tens, 10);
    lemma_fundamental_div_mod(hundreds, 10);
}

/// A number below a hundred is ten times its first digit plus its second.
proof fn lemma_join_two(n: nat)
    requires
        n <= 99,
    ensures
        n / 10 <= 9,
        n % 10 <= 9,
        (n / 10) * 10 + n % 10 == n,
{
}

/// The eight digits of a calendar day of the years 0 to 9999 write that day.
pub proof fn lemma_digits_write_the_date(year: nat, month: nat, day: nat)
    requires
        year <= 9999,
        is_calendar_date(year, month, day),
    ensures
        ymd_of(digits_of((year, month, day))) == Some((year, month, day)),
{
    lemma_join_four(year);
    lemma_join_two(month);
    lemma_join_two(day);
    let field = digits_of((year, month, day));
    let year_part = field.subrange(0, 4);
    let month_part = field.subrange(4, 6);
    let day_part = field.subrange(6, 8);
    lemma_four_digits(year_part);
    lemma_two_digits(month_part);
    lemma_two_digits(day_part);
    assert(year_part[0] == field[0] && year_part[1] == field[1] && year_part[2] == field[2]
        && year_part[3] == field[3]);
    assert(month_part[0] == field[4] && month_part[1] == field[5]);
    assert(day_part[0] == field[6] && day_part[1] == field[7]);
    assert(digits_value(year_part) == year);
    assert(digits_value(month_part) == month);
    assert(digits_value(day_part) == day);
    assert(all_digits(field));
}

/// Calls `chrono::NaiveDate::parse_from_str` with the format `%Y%m%d` and
/// reads year, month and day off the date. Trusted, for a string of exactly
/// eight ASCII digits: the call takes four digits as the year, two as the
/// month and two as the day, and succeeds exactly where the calendar has
/// that day.
#[verifier::external_body]
fn naive_date_parse(text: &str) -> (r: Option<(i32, u32, u32)>)
    requires
        text.spec_bytes().len() == 8,
        all_digits(text.spec_bytes()),
    ensures
        r is Some <==> ymd_of(text.spec_bytes()) is Some,
        r matches Some(date) ==> date.0 == (ymd_of(text.spec_bytes())->0).0,
        r matches Some(date) ==> date.1 == (ymd_of(text.spec_bytes())->0).1,
        r matches Some(date) ==> date.2 == (ymd_of(text.spec_bytes())->0).2,
{
    match chrono::NaiveDate::parse_from_str(text, "%Y%m%d") {
        Ok(date) => Some((date.year(), date.month(), date.day())),
        Err(_) => None,
    }
}

/// A day of the Gregorian calendar, of the years 0 to 9999.
#[derive(Clone, Copy, Debug, PartialEq, Eq, Structural)]
pub struct Date {
    year: u16,
    month: u8,
    day: u8,
}

impl Date {
    /// Year, month and day.
    pub closed spec fn ymd(&self) -> (nat, nat, nat) {
        (self.year as nat, self.month as nat, self.day as nat)
    }

    #[verifier::type_invariant]
    spec fn on_the_calendar(&self) -> bool {
        self.year <= 9999 && is_calendar_date(self.year as nat, self.month as nat, self.day as nat)
    }

    /// The date of a year, month and day, where the calendar has it.
    pub fn from_ymd(year: u16, month: u8, day: u8) -> (r: Option<Date>)
        ensures
            r is Some <==> year <= 9999 && is_calendar_date(year as nat, month as nat, day as nat),
            r matches Some(date) ==> date.ymd() == (year as nat, month as nat, day as nat),
    {
        if year > 9999 || month < 1 || month > 12 || day < 1 {
            return None;
        }
        let leap: bool = year % 4 == 0 && (year % 100 != 0 || year % 400 == 0);
        let days: u8 = if month == 2 {
            if leap {
                29
            } else {
                28
            }
        } else if month == 4 || month == 6 || month == 9 || month == 11 {
            30
        } else {
            31
        };
        if day > days {
            return None;
        }
        Some(Date { year, month, day })
    }

    /// The year, 0 to 9999.
    pub fn year(&self) -> (year: u16)
        ensures
            year == self.ymd().0,
            year <= 9999,
    {
        proof {
            use_type_invariant(self);
        }
        self.year
    }

    /// The month, 1 to 12.
    pub fn month(&self) -> (month: u8)
        ensures
            month == self.ymd().1,
            1 <= month <= 12,
    {
        proof {
            use_type_invariant(self);
        }
        self.month
    }

    /// The day of the month, from 1.
    pub fn day(&self) -> (day: u8)
        ensures
            day == self.ymd().2,
            is_calendar_date(self.ymd().0, self.ymd().1, self.ymd().2),
    {
        proof {
            use_type_invariant(self);
        }
        self.day
    }

    /// The eight digits that write the date.
    pub fn to_digits(&self) -> (digits: Vec<u8>)
        ensures
            digits@ == digits_of(self.ymd()),
            ymd_of(digits@) == Some(self.ymd()),
    {
        proof {
            use_type_invariant(self);
            lemma_digits_write_the_date(self.ymd().0, self.ymd().1, self.ymd().2);
        }
        let y: u16 = self.year;
        let m: u8 = self.month;
        let d: u8 = self.day;
        let mut digits: Vec<u8> = Vec::new();
        digits.push(0x30 + (y / 1000) as u8);
        digits.push(0x30 + (y / 100 % 10) as u8);
        digits.push(0x30 + (y / 10 % 10) as u8);
        digits.push(0x30 + (y % 10) as u8);
        digits.push(0x30 + m / 10);
        digits.push(0x30 + m % 10);
        digits.push(0x30 + d / 10);
        digits.push(0x30 + d % 10);
        digits
    }

    /// The date as the feed writes it, `YYYYMMDD`.
    pub fn yyyymmdd(&self) -> (text: String)
        ensures
            text@ == ascii_text(digits_of(self.ymd())),
    {
        let digits = self.to_digits();
        proof {
            use_type_invariant(self);
            lemma_ascii_is_utf8(digits@);
        }
        match str_from_utf8(digits.as_slice()) {
            Some(text) => {
                proof {
                    encode_utf8_decode_utf8(text@);
                }
                text.to_owned()
            },
            None => String::new(),
        }
    }
}

/// Reads a date field. A field that does not write a date, a blank one among
/// them, gives `None`.
pub fn parse_date(field: &[u8]) -> (r: Option<Date>)
    ensures
        r is Some <==> ymd_of(field@) is Some,
        r matches Some(date) ==> ymd_of(field@) == Some(date.ymd()),
{
    if field.len() != 8 {
        return None;
    }
    let mut i: usize = 0;
    while i < 8
        invariant
            i <= 8,
            field@.len() == 8,
            forall|j: int| 0 <= j < i ==> is_digit(#[trigger] field@[j]),
        decreases 8 - i,
    {
        if field[i] < 0x30 || field[i] > 0x39 {
            return None;
        }
        i += 1;
    }
    proof {
        lemma_ascii_is_utf8(field@);
    }
    match str_from_utf8(field) {
        Some(text) => match naive_date_parse(text) {
            Some((year, month, day)) => {
                proof {
                    lemma_four_digits(field@.subrange(0, 4));
                }
                Some(Date { year: year as u16, month: month as u8, day: day as u8 })
            },
            None => None,
        },
        None => None,
    }
}

/// Reads an optional date text: `None` for no text and for a text that does
/// not write a date.
pub fn naive_date_from_str(date_option: Option<String>) -> (r: Option<Date>)
    ensures
        date_option is None ==> r is None,
        date_option matches Some(text) ==> (r is Some <==> ymd_of(encode_utf8(text@)) is Some),
        date_option matches Some(text) ==> (r matches Some(date) ==> ymd_of(encode_utf8(text@))
            == Some(date.ymd())),
{
    match date_option {
        Some(text) => parse_date(text.as_str().as_bytes()),
        None => None,
    }
}

} // verus!
