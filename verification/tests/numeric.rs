use oracle_parquet::numeric::narrow_u32;
use oracle_parquet::numeric::narrow_u64;
use oracle_parquet::numeric::parse_i64;

#[test]
fn narrowing_keeps_small_values() {
    assert_eq!(narrow_u64(0), 0);
    assert_eq!(narrow_u64(1674760102047), 1674760102047);
    assert_eq!(narrow_u64(i64::MAX as u64), i64::MAX);
    assert_eq!(narrow_u32(7), 7);
    assert_eq!(narrow_u32(i32::MAX as u32), i32::MAX);
}

#[test]
fn narrowing_wraps_large_values() {
    assert_eq!(narrow_u64(u64::MAX), -1);
    assert_eq!(narrow_u64(1u64 << 63), i64::MIN);
    assert_eq!(narrow_u64((1u64 << 63) + 5), i64::MIN + 5);
    assert_eq!(narrow_u32(u32::MAX), -1);
    assert_eq!(narrow_u32(1u32 << 31), i32::MIN);
    assert_eq!(narrow_u32(4_000_000_000), 4_000_000_000u32 as i32);
}

#[test]
fn parse_reads_plain_numbers() {
    assert_eq!(parse_i64("0"), Some(0));
    assert_eq!(parse_i64("631252734740306943"), Some(631252734740306943));
    assert_eq!(parse_i64("+17"), Some(17));
    assert_eq!(parse_i64("-17"), Some(-17));
    assert_eq!(parse_i64("0007"), Some(7));
    assert_eq!(parse_i64("-0"), Some(0));
}

#[test]
fn parse_reads_the_ends_of_the_range() {
    assert_eq!(parse_i64("9223372036854775807"), Some(i64::MAX));
    assert_eq!(parse_i64("-9223372036854775808"), Some(i64::MIN));
    assert_eq!(parse_i64("9223372036854775808"), None);
    assert_eq!(parse_i64("-9223372036854775809"), None);
    assert_eq!(parse_i64("99999999999999999999999999999999999999999999"), None);
    assert_eq!(parse_i64("00000000000000000000000000000000000000000001"), Some(1));
}

#[test]
fn parse_refuses_what_is_no_number() {
    assert_eq!(parse_i64(""), None);
    assert_eq!(parse_i64("+"), None);
    assert_eq!(parse_i64("-"), None);
    assert_eq!(parse_i64("abc"), None);
    assert_eq!(parse_i64("12a"), None);
    assert_eq!(parse_i64(" 12"), None);
    assert_eq!(parse_i64("12 "), None);
    assert_eq!(parse_i64("1_000"), None);
    assert_eq!(parse_i64("+-1"), None);
    assert_eq!(parse_i64("8c2681a3064d9ff"), None);
    assert_eq!(parse_i64("１２"), None);
}

#[test]
fn parse_agrees_with_the_standard_library() {
    let samples = [
        "", "0", "-0", "+0", "1", "-1", "+1", "42", "-42", "007", "+", "-", "--1", "++1", "1-",
        "1+", "1.0", "1e3", "0x10", " 1", "1 ", "９", "é", "12345678901234567890",
        "-12345678901234567890", "9223372036854775807", "9223372036854775808",
        "-9223372036854775808", "-9223372036854775809", "631252734740306943",
    ];
    for s in samples {
        assert_eq!(parse_i64(s), s.parse::<i64>().ok(), "{:?}", s);
    }
}
