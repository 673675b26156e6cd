use bigdecimal::BigDecimal;
use cnpj_import::decimal::{normalize_decimal, parse_decimal, Decimal};
use std::str::FromStr;

fn decimal(digits: &str, scale: i64) -> Decimal {
    Decimal { digits: String::from(digits), scale }
}

fn as_big(number: &Decimal) -> BigDecimal {
    BigDecimal::from_str(&format!("{}e{}", number.digits, -number.scale)).unwrap()
}

#[test]
fn only_the_first_comma_becomes_a_point() {
    assert_eq!(normalize_decimal(b"1.234,56"), b"1.234.56".to_vec());
    assert_eq!(normalize_decimal(b"1234,56"), b"1234.56".to_vec());
    assert_eq!(normalize_decimal(b"1,234,56"), b"1.234,56".to_vec());
    assert_eq!(normalize_decimal(b"1.234.567,89"), b"1.234.567.89".to_vec());
    assert_eq!(normalize_decimal(b",,"), b".,".to_vec());
}

#[test]
fn a_field_without_comma_stays() {
    assert_eq!(normalize_decimal(b"1234"), b"1234".to_vec());
    assert_eq!(normalize_decimal(b"12.5"), b"12.5".to_vec());
    assert_eq!(normalize_decimal(b""), Vec::<u8>::new());
}

#[test]
fn parses_an_amount_of_the_feed() {
    assert_eq!(parse_decimal(b"1234,56"), Some(decimal("123456", 2)));
    assert_eq!(parse_decimal(b"1000,00"), Some(decimal("100000", 2)));
    assert_eq!(parse_decimal(b"0,00"), Some(decimal("0", 2)));
    assert_eq!(parse_decimal(b"500"), Some(decimal("500", 0)));
}

#[test]
fn the_amount_is_the_number_the_parser_reads() {
    for (field, text) in [("1234,56", "1234.56"), ("0,5", "0.5"), ("12", "12"), ("-3,25", "-3.25")]
    {
        let ours = parse_decimal(field.as_bytes()).unwrap();
        assert_eq!(as_big(&ours), BigDecimal::from_str(text).unwrap(), "{}", field);
    }
}

#[test]
fn an_amount_of_any_size() {
    let ours = parse_decimal(b"123456789012345678901234567890,12").unwrap();
    assert_eq!(ours, decimal("12345678901234567890123456789012", 2));
}

#[test]
fn a_thousands_separator_before_the_comma_is_not_an_amount() {
    // The first comma becomes the point, the points that were there stay:
    // the number parser then finds two points and rejects the text.
    assert_eq!(normalize_decimal(b"1.234,56"), b"1.234.56".to_vec());
    assert_eq!(parse_decimal(b"1.234,56"), None);
    assert_eq!(parse_decimal(b"1.234.567,89"), None);
    assert!(BigDecimal::from_str("1.234.56").is_err());
}

#[test]
fn a_second_comma_is_not_an_amount() {
    assert_eq!(parse_decimal(b"1,234,56"), None);
}

#[test]
fn what_is_no_number_is_no_amount() {
    assert_eq!(parse_decimal(b""), None);
    assert_eq!(parse_decimal(b","), None);
    assert_eq!(parse_decimal(b"abc"), None);
    assert_eq!(parse_decimal(b"12,5x"), None);
    assert_eq!(parse_decimal(&[0x31, 0xE7]), None);
    assert_eq!(parse_decimal("1²".as_bytes()), None);
}

#[test]
fn an_exponent_is_not_an_amount() {
    assert_eq!(parse_decimal(b"1e3"), None);
    assert_eq!(parse_decimal(b"1E3"), None);
    assert_eq!(parse_decimal(b"1e-9223372036854775808"), None);
}

#[test]
fn a_point_as_separator_is_read_too() {
    assert_eq!(parse_decimal(b"12.5"), Some(decimal("125", 1)));
}
