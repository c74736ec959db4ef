use web_serial_logger::text::{decimal_string, parse_u32};

#[test]
fn decimal_string_writes_plain_decimal() {
    assert_eq!(decimal_string(0), "0");
    assert_eq!(decimal_string(7), "7");
    assert_eq!(decimal_string(10), "10");
    assert_eq!(decimal_string(230400), "230400");
    assert_eq!(decimal_string(u64::MAX), "18446744073709551615");
}

#[test]
fn decimal_string_matches_format() {
    for n in [1u64, 9, 99, 100, 1024, 65535, 4294967295, 1234567890123] {
        assert_eq!(decimal_string(n), format!("{}", n));
    }
}

#[test]
fn parse_u32_accepts_digits_and_plus() {
    assert_eq!(parse_u32("0"), Some(0));
    assert_eq!(parse_u32("9600"), Some(9600));
    assert_eq!(parse_u32("+12"), Some(12));
    assert_eq!(parse_u32("007"), Some(7));
    assert_eq!(parse_u32("4294967295"), Some(u32::MAX));
}

#[test]
fn parse_u32_rejects_what_std_rejects() {
    for s in ["", "+", "-", "-1", "12a", " 12", "12 ", "4294967296", "99999999999999", "1.5", "٣"] {
        assert_eq!(parse_u32(s), None, "{:?}", s);
        assert!(s.parse::<u32>().is_err());
    }
}

#[test]
fn parse_u32_agrees_with_std() {
    for s in ["1", "+0", "00000000000000000042", "115200", "+4294967295", "4294967295"] {
        assert_eq!(parse_u32(s), s.parse::<u32>().ok());
    }
}

#[test]
fn decimal_text_parses_back() {
    for n in [0u32, 1, 10, 9600, 921600, u32::MAX] {
        assert_eq!(parse_u32(&decimal_string(n as u64)), Some(n));
    }
}
