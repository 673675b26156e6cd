//! One line of a file, as the byte fields between its delimiters, and the
//! readers that take one field each.

use crate::date::{parse_date, ymd_of, Date};
use crate::decimal::{decimal_of, parse_decimal, Decimal};
use crate::number::{number_of, parse_number};
use crate::text::{decode_text, latin9_text, text_from_utf8, utf8_text};
use vstd::prelude::*;
use vstd::utf8::*;

verus! {

/// One line of a file: its fields, in order, as bytes.
#[derive(Clone, Debug, PartialEq, Eq)]
pub struct RawRow {
    pub fields: Vec<Vec<u8>>,
}

impl View for RawRow {
    type V = Seq<Seq<u8>>;

    open spec fn view(&self) -> Seq<Seq<u8>> {
        Seq::new(self.fields@.len(), |i: int| self.fields@[i]@)
    }
}

impl RawRow {
    /// The row of the given fields.
    pub fn new(fields: Vec<Vec<u8>>) -> (row: RawRow)
        ensures
            row.fields == fields,
    {
        RawRow { fields }
    }

    /// The number of fields.
    pub fn len(&self) -> (n: usize)
        ensures
            n == self@.len(),
    {
        self.fields.len()
    }

    /// The field at `index`.
    pub fn field(&self, index: usize) -> (field: &[u8])
        requires
            index < self@.len(),
        ensures
            field@ == self@[index as int],
    {
        self.fields[index].as_slice()
    }
}

/// What is wrong with a field.
#[derive(Clone, Copy, Debug, PartialEq, Eq, Structural)]
pub enum FieldFault {
    /// The row ends before this field.
    Missing,
    /// The field is not UTF-8.
    NotText,
    /// The field does not decode in the legacy encoding.
    Undecodable,
    /// The field is not a number of its column's range.
    NotANumber,
    /// The field is not a date.
    NotADate,
    /// The field is not a decimal amount.
    NotADecimal,
}

/// The first field of a row that cannot be mapped, and why.
#[derive(Clone, Copy, Debug, PartialEq, Eq, Structural)]
pub struct RowError {
    pub field: usize,
    pub fault: FieldFault,
}

/// A field with nothing in it.
pub open spec fn is_blank(field: Seq<u8>) -> bool {
    field.len() == 0
}

/// The text of an optional text field whose content, if any, must be UTF-8:
/// `None` for a fault, `Some(None)` for a blank field.
pub open spec fn optional_text_of(field: Seq<u8>) -> Option<Option<Seq<char>>> {
    if is_blank(field) {
        Some(None)
    } else if valid_utf8(field) {
        Some(Some(decode_utf8(field)))
    } else {
        None
    }
}

/// The text of an optional text field that forgives: blank or not UTF-8, it
/// is null.
pub open spec fn lenient_text_of(field: Seq<u8>) -> Option<Seq<char>> {
    if is_blank(field) {
        None
    } else {
        utf8_text(field)
    }
}

/// The number of an optional number field whose content, if any, must be a
/// number: `None` for a fault, `Some(None)` for a blank field.
pub open spec fn optional_number_of(field: Seq<u8>, max: nat) -> Option<Option<nat>> {
    if is_blank(field) {
        Some(None)
    } else if number_of(field, max) is Some {
        Some(number_of(field, max))
    } else {
        None
    }
}

/// The text of an optional code field whose content is kept even where it
/// is not UTF-8: a blank field is null; any other field is its text, or the
/// fallback where it is not UTF-8.
pub open spec fn optional_text_or_of(field: Seq<u8>, fallback: Seq<char>) -> Option<Seq<char>> {
    if is_blank(field) {
        None
    } else {
        match utf8_text(field) {
            Some(text) => Some(text),
            None => Some(fallback),
        }
    }
}

/// The view of an optional text.
pub open spec fn text_view(text: Option<String>) -> Option<Seq<char>> {
    match text {
        Some(text) => Some(text@),
        None => None,
    }
}

/// The view of an optional date.
pub open spec fn date_view(date: Option<Date>) -> Option<(nat, nat, nat)> {
    match date {
        Some(date) => Some(date.ymd()),
        None => None,
    }
}

/// The view of an optional amount.
pub open spec fn decimal_view(number: Option<Decimal>) -> Option<(Seq<char>, int)> {
    match number {
        Some(number) => Some(number@),
        None => None,
    }
}

/// The view of an optional number.
pub open spec fn number_view(number: Option<u32>) -> Option<nat> {
    match number {
        Some(number) => Some(number as nat),
        None => None,
    }
}

/// Reads a text field that must be UTF-8.
pub fn required_text(field: &[u8], index: usize) -> (r: Result<String, RowError>)
    ensures
        r matches Ok(text) ==> utf8_text(field@) == Some(text@),
        r matches Err(e) ==> utf8_text(field@) is None && e == (RowError {
            field: index,
            fault: FieldFault::NotText,
        }),
{
    match text_from_utf8(field) {
        Some(text) => Ok(text),
        None => Err(RowError { field: index, fault: FieldFault::NotText }),
    }
}

/// Reads an optional text field: blank is null, anything else must be UTF-8.
pub fn optional_text(field: &[u8], index: usize) -> (r: Result<Option<String>, RowError>)
    ensures
        r matches Ok(text) ==> optional_text_of(field@) == Some(text_view(text)),
        r matches Err(e) ==> optional_text_of(field@) is None && e == (RowError {
            field: index,
            fault: FieldFault::NotText,
        }),
{
    if field.len() == 0 {
        return Ok(None);
    }
    match text_from_utf8(field) {
        Some(text) => Ok(Some(text)),
        None => Err(RowError { field: index, fault: FieldFault::NotText }),
    }
}

/// Reads an optional text field that forgives: blank or not UTF-8, it is
/// null.
pub fn lenient_text(field: &[u8]) -> (r: Option<String>)
    ensures
        text_view(r) == lenient_text_of(field@),
{
    if field.len() == 0 {
        return None;
    }
    text_from_utf8(field)
}

/// Reads an optional code field that is kept even where it is not UTF-8:
/// blank is null; anything else is its text, or the fallback where it is not
/// UTF-8.
pub fn optional_text_or(field: &[u8], fallback: &str) -> (r: Option<String>)
    ensures
        text_view(r) == optional_text_or_of(field@, fallback@),
        is_blank(field@) ==> r is None,
{
    if field.len() == 0 {
        return None;
    }
    match text_from_utf8(field) {
        Some(text) => Some(text),
        None => Some(fallback.to_owned()),
    }
}

/// Reads a free-text field in the legacy encoding of the feed.
pub fn legacy_text(field: &[u8], index: usize) -> (r: Result<String, RowError>)
    ensures
        r matches Ok(text) && text@ == latin9_text(field@),
{
    match decode_text(field) {
        Ok(text) => Ok(text),
        Err(_) => Err(RowError { field: index, fault: FieldFault::Undecodable }),
    }
}

/// Reads a number field that must hold a number of at most `max`.
pub fn required_number(field: &[u8], index: usize, max: u32) -> (r: Result<u32, RowError>)
    ensures
        r matches Ok(n) ==> number_of(field@, max as nat) == Some(n as nat),
        r matches Err(e) ==> number_of(field@, max as nat) is None && e == (RowError {
            field: index,
            fault: FieldFault::NotANumber,
        }),
{
    match parse_number(field, max) {
        Some(n) => Ok(n),
        None => Err(RowError { field: index, fault: FieldFault::NotANumber }),
    }
}

/// Reads an optional number field: blank is null, not zero and not a fault;
/// anything else must be a number of at most `max`.
pub fn optional_number(field: &[u8], index: usize, max: u32) -> (r: Result<Option<u32>, RowError>)
    ensures
        r matches Ok(n) ==> optional_number_of(field@, max as nat) == Some(number_view(n)),
        r matches Err(e) ==> optional_number_of(field@, max as nat) is None && e == (RowError {
            field: index,
            fault: FieldFault::NotANumber,
        }),
        is_blank(field@) ==> r == Ok::<Option<u32>, RowError>(None),
{
    if field.len() == 0 {
        return Ok(None);
    }
    match parse_number(field, max) {
        Some(n) => Ok(Some(n)),
        None => Err(RowError { field: index, fault: FieldFault::NotANumber }),
    }
}

/// Reads an optional number field that forgives: blank or not a number of at
/// most `max`, it is null.
pub fn lenient_number(field: &[u8], max: u32) -> (r: Option<u32>)
    ensures
        number_view(r) == number_of(field@, max as nat),
        is_blank(field@) ==> r is None,
{
    parse_number(field, max)
}

/// Reads an optional date field: blank or not a date, it is null.
pub fn optional_date(field: &[u8]) -> (r: Option<Date>)
    ensures
        date_view(r) == ymd_of(field@),
        is_blank(field@) ==> r is None,
{
    parse_date(field)
}

/// Reads a date field that must hold a date.
pub fn required_date(field: &[u8], index: usize) -> (r: Result<Date, RowError>)
    ensures
        r matches Ok(date) ==> ymd_of(field@) == Some(date.ymd()),
        r matches Err(e) ==> ymd_of(field@) is None && e == (RowError {
            field: index,
            fault: FieldFault::NotADate,
        }),
{
    match parse_date(field) {
        Some(date) => Ok(date),
        None => Err(RowError { field: index, fault: FieldFault::NotADate }),
    }
}

/// Reads an amount field, which must hold a decimal number.
pub fn required_decimal(field: &[u8], index: usize) -> (r: Result<Decimal, RowError>)
    ensures
        r matches Ok(number) ==> decimal_of(field@) == Some(number@),
        r matches Err(e) ==> decimal_of(field@) is None && e == (RowError {
            field: index,
            fault: FieldFault::NotADecimal,
        }),
{
    match parse_decimal(field) {
        Some(number) => Ok(number),
        None => Err(RowError { field: index, fault: FieldFault::NotADecimal }),
    }
}

} // verus!
