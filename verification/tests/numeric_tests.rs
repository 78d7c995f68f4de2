use snowflake_perms::numeric::{format_u64, parse_u64_dec, parse_wire, NumericError, WireValue};

#[test]
fn formats_exact_decimal_strings() {
    assert_eq!(format_u64(0), "0");
    assert_eq!(format_u64(7), "7");
    assert_eq!(format_u64(10), "10");
    assert_eq!(format_u64(268435488), "268435488");
    assert_eq!(format_u64(u64::MAX), "18446744073709551615");
}

#[test]
fn parses_valid_numerals() {
    assert_eq!(parse_u64_dec("0"), Ok(0));
    assert_eq!(parse_u64_dec("007"), Ok(7));
    assert_eq!(parse_u64_dec("18446744073709551615"), Ok(u64::MAX));
    assert_eq!(parse_u64_dec("175928847299117063"), Ok(175928847299117063));
}

#[test]
fn rejects_non_numerals_and_overflow() {
    for bad in ["", "x", "1 2", "+1", "-1", "0x10", "18446744073709551616"] {
        assert_eq!(parse_u64_dec(bad), Err(NumericError::Parse), "input {bad:?}");
    }
}

#[test]
fn format_then_parse_is_identity() {
    for v in [0u64, 1, 9, 10, 99, 100, 2u64.pow(53), u64::MAX] {
        assert_eq!(parse_u64_dec(&format_u64(v)), Ok(v));
    }
}

#[test]
fn wire_shapes_converge() {
    assert_eq!(parse_wire(&WireValue::Unsigned(5)), Ok(5));
    assert_eq!(parse_wire(&WireValue::Signed(5)), Ok(5));
    assert_eq!(parse_wire(&WireValue::Signed(0)), Ok(0));
    assert_eq!(parse_wire(&WireValue::Signed(i64::MAX)), Ok(i64::MAX as u64));
    assert_eq!(parse_wire(&WireValue::Signed(-1)), Err(NumericError::Range));
    assert_eq!(
        parse_wire(&WireValue::Text(String::from("123"))),
        Ok(123)
    );
    assert_eq!(
        parse_wire(&WireValue::Text(String::from("12.5"))),
        Err(NumericError::Parse)
    );
}
