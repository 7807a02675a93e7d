use versioninfo::decimal::{decimal_string, parse_u16, push_decimal};

#[test]
fn decimal_values() {
    assert_eq!(decimal_string(0), "0");
    assert_eq!(decimal_string(7), "7");
    assert_eq!(decimal_string(10), "10");
    assert_eq!(decimal_string(1252), "1252");
    assert_eq!(decimal_string(u32::MAX), "4294967295");
    let mut s = String::from("x=");
    push_decimal(&mut s, 305);
    assert_eq!(s, "x=305");
}

#[test]
fn parse_u16_values() {
    assert_eq!(parse_u16("42"), Some(42));
    assert_eq!(parse_u16("+7"), Some(7));
    assert_eq!(parse_u16("0001"), Some(1));
    assert_eq!(parse_u16("65535"), Some(65535));
    assert_eq!(parse_u16("65536"), None);
    assert_eq!(parse_u16(""), None);
    assert_eq!(parse_u16("+"), None);
    assert_eq!(parse_u16("-1"), None);
    assert_eq!(parse_u16("1a"), None);
    assert_eq!(parse_u16("alpha.1"), None);
    assert_eq!(parse_u16("99999999999999999999"), None);
}

#[test]
fn parse_u16_matches_std() {
    let cases = [
        "", "0", "1", "+", "-", "+0", "-0", "++1", "12", "065535", "65535", "65536", "70000",
        "123456", " 1", "1 ", "1.0", "beta", "٣", "+65535", "00000000000000000001",
        "4294967296",
    ];
    for c in cases {
        assert_eq!(parse_u16(c), c.parse::<u16>().ok(), "input {:?}", c);
    }
}

#[test]
fn decimal_reads_back() {
    for n in [0u16, 1, 9, 10, 99, 100, 1234, 65535] {
        assert_eq!(parse_u16(&decimal_string(n as u32)), Some(n));
    }
}
