use redirection_service::numbers::{parse_i32, parse_u16};

#[test]
fn parse_u16_accepts_decimal_ports() {
    assert_eq!(parse_u16("0"), Some(0));
    assert_eq!(parse_u16("8081"), Some(8081));
    assert_eq!(parse_u16("+8081"), Some(8081));
    assert_eq!(parse_u16("65535"), Some(65535));
    assert_eq!(parse_u16("007"), Some(7));
}

#[test]
fn parse_u16_rejects_everything_else() {
    assert_eq!(parse_u16(""), None);
    assert_eq!(parse_u16("+"), None);
    assert_eq!(parse_u16("-1"), None);
    assert_eq!(parse_u16("65536"), None);
    assert_eq!(parse_u16("80 81"), None);
    assert_eq!(parse_u16("8081x"), None);
}

#[test]
fn parse_i32_covers_the_whole_range() {
    assert_eq!(parse_i32("0"), Some(0));
    assert_eq!(parse_i32("-0"), Some(0));
    assert_eq!(parse_i32("3"), Some(3));
    assert_eq!(parse_i32("+3"), Some(3));
    assert_eq!(parse_i32("-3"), Some(-3));
    assert_eq!(parse_i32("2147483647"), Some(i32::MAX));
    assert_eq!(parse_i32("2147483648"), None);
    assert_eq!(parse_i32("-2147483648"), Some(i32::MIN));
    assert_eq!(parse_i32("-2147483649"), None);
    assert_eq!(parse_i32("three"), None);
    assert_eq!(parse_i32("-"), None);
}
