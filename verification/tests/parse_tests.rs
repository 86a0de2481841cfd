use shapes_demo::parse::parse_domain_id;
use shapes_demo::parse::parse_i32;
use shapes_demo::parse::parse_u16;

#[test]
fn plain_numbers_parse() {
    assert_eq!(parse_i32("0"), Some(0));
    assert_eq!(parse_i32("5"), Some(5));
    assert_eq!(parse_i32("240"), Some(240));
}

#[test]
fn signed_numbers_parse() {
    assert_eq!(parse_i32("-3"), Some(-3));
    assert_eq!(parse_i32("+7"), Some(7));
    assert_eq!(parse_i32("-0"), Some(0));
}

#[test]
fn malformed_numbers_are_rejected() {
    assert_eq!(parse_i32(""), None);
    assert_eq!(parse_i32("-"), None);
    assert_eq!(parse_i32("+"), None);
    assert_eq!(parse_i32("abc"), None);
    assert_eq!(parse_i32("12a"), None);
    assert_eq!(parse_i32(" 5"), None);
    assert_eq!(parse_i32("5 "), None);
    assert_eq!(parse_i32("--5"), None);
    assert_eq!(parse_i32("+-5"), None);
    assert_eq!(parse_i32("1.5"), None);
}

#[test]
fn leading_zeros_are_accepted() {
    assert_eq!(parse_i32("0000000000123"), Some(123));
    assert_eq!(parse_i32("-000"), Some(0));
}

#[test]
fn i32_range_boundaries() {
    assert_eq!(parse_i32("2147483647"), Some(i32::MAX));
    assert_eq!(parse_i32("2147483648"), None);
    assert_eq!(parse_i32("-2147483648"), Some(i32::MIN));
    assert_eq!(parse_i32("-2147483649"), None);
    assert_eq!(parse_i32("99999999999999999999"), None);
    assert_eq!(parse_i32("-99999999999999999999"), None);
}

#[test]
fn u16_parsing() {
    assert_eq!(parse_u16("0"), Some(0));
    assert_eq!(parse_u16("+12"), Some(12));
    assert_eq!(parse_u16("65535"), Some(u16::MAX));
    assert_eq!(parse_u16("65536"), None);
    assert_eq!(parse_u16("-1"), None);
    assert_eq!(parse_u16(""), None);
    assert_eq!(parse_u16("00042"), Some(42));
    assert_eq!(parse_u16("99999999999999999999"), None);
}

#[test]
fn domain_id_defaults_to_zero() {
    assert_eq!(parse_domain_id(None), 0);
    assert_eq!(parse_domain_id(Some("not a number")), 0);
    assert_eq!(parse_domain_id(Some("70000")), 0);
    assert_eq!(parse_domain_id(Some("-1")), 0);
}

#[test]
fn domain_id_takes_a_valid_number() {
    assert_eq!(parse_domain_id(Some("0")), 0);
    assert_eq!(parse_domain_id(Some("7")), 7);
    assert_eq!(parse_domain_id(Some("65535")), 65535);
}
