use ecowitt2db::numerals::Numeral;
use ecowitt2db::numerals::check_decimal;
use ecowitt2db::numerals::parse_i32;
use ecowitt2db::numerals::parse_u16;
use ecowitt2db::numerals::parse_u32;
use ecowitt2db::numerals::parse_u64;
use ecowitt2db::numerals::parse_u8;

#[test]
fn unsigned_parsing_accepts_digits() {
    assert_eq!(parse_u8("0"), Some(0));
    assert_eq!(parse_u8("255"), Some(255));
    assert_eq!(parse_u8("+7"), Some(7));
    assert_eq!(parse_u16("180"), Some(180));
    assert_eq!(parse_u16("65535"), Some(65535));
    assert_eq!(parse_u32("30"), Some(30));
    assert_eq!(parse_u64("18446744073709551615"), Some(u64::MAX));
    assert_eq!(parse_u64("000120"), Some(120));
}

#[test]
fn unsigned_parsing_rejects_out_of_range() {
    assert_eq!(parse_u8("256"), None);
    assert_eq!(parse_u16("65536"), None);
    assert_eq!(parse_u32("4294967296"), None);
    assert_eq!(parse_u64("18446744073709551616"), None);
}

#[test]
fn unsigned_parsing_rejects_malformed() {
    assert_eq!(parse_u8(""), None);
    assert_eq!(parse_u8("+"), None);
    assert_eq!(parse_u8("-1"), None);
    assert_eq!(parse_u8("1.5"), None);
    assert_eq!(parse_u8("12a"), None);
    assert_eq!(parse_u8(" 1"), None);
}

#[test]
fn signed_parsing() {
    assert_eq!(parse_i32("45"), Some(45));
    assert_eq!(parse_i32("-12"), Some(-12));
    assert_eq!(parse_i32("+25000"), Some(25000));
    assert_eq!(parse_i32("2147483647"), Some(i32::MAX));
    assert_eq!(parse_i32("-2147483648"), Some(i32::MIN));
    assert_eq!(parse_i32("2147483648"), None);
    assert_eq!(parse_i32("-2147483649"), None);
    assert_eq!(parse_i32("-"), None);
    assert_eq!(parse_i32("1e3"), None);
}

#[test]
fn decimal_grammar_accepts_finite_decimals() {
    assert!(check_decimal("7"));
    assert!(check_decimal("98.6"));
    assert!(check_decimal("-3.25"));
    assert!(check_decimal("+.5"));
    assert!(check_decimal("12."));
    assert!(check_decimal("0.0"));
    assert!(check_decimal("100000000.0"));
}

#[test]
fn decimal_grammar_rejects_everything_else() {
    assert!(!check_decimal(""));
    assert!(!check_decimal("."));
    assert!(!check_decimal("+"));
    assert!(!check_decimal("-."));
    assert!(!check_decimal("1e5"));
    assert!(!check_decimal("abc"));
    assert!(!check_decimal("1.2.3"));
    assert!(!check_decimal("--1"));
    assert!(!check_decimal("inf"));
    assert!(!check_decimal("NaN"));
    assert!(!check_decimal(" 1"));
}

#[test]
fn numeral_keeps_its_text() {
    let n = Numeral::new(String::from("29.92")).unwrap();
    assert_eq!(n.as_str(), "29.92");
    assert!(Numeral::new(String::from("29.92.1")).is_none());
}
