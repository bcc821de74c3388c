use wasmedge_vdb_sdk::text::{append_bool, append_decimal, parse_i64};

#[test]
fn decimal_text_is_parsed() {
    assert_eq!(parse_i64("42"), Some(42));
    assert_eq!(parse_i64("0"), Some(0));
    assert_eq!(parse_i64("-0"), Some(0));
    assert_eq!(parse_i64("+7"), Some(7));
    assert_eq!(parse_i64("007"), Some(7));
    assert_eq!(parse_i64("-9223372036854775808"), Some(i64::MIN));
    assert_eq!(parse_i64("9223372036854775807"), Some(i64::MAX));
}

#[test]
fn other_text_is_not_a_number() {
    for bad in ["", "-", "+", "1 2", " 1", "1.5", "0x10", "--1", "9223372036854775808",
        "-9223372036854775809", "١٢"]
    {
        assert_eq!(parse_i64(bad), None, "{:?}", bad);
    }
}

#[test]
fn numbers_and_flags_are_written() {
    let mut s = String::from("n=");
    append_decimal(&mut s, -305);
    s.push(' ');
    append_bool(&mut s, true);
    assert_eq!(s, "n=-305 true");
    for n in [0i64, 9, 10, 1234567890, i64::MAX, i64::MIN, -1] {
        let mut t = String::new();
        append_decimal(&mut t, n);
        assert_eq!(t, n.to_string());
        assert_eq!(parse_i64(&t), Some(n));
    }
}
