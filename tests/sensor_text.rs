use pi_fan::parse_temperature;

fn read(text: &str) -> i64 {
    parse_temperature(text).millidegrees()
}

#[test]
fn reads_millidegrees_with_trailing_newline() {
    assert_eq!(read("45000\n"), 45_000);
    assert_eq!(read("45000\n") as f64 / 1000.0, 45.0);
}

#[test]
fn malformed_text_reads_as_zero() {
    assert_eq!(read("abc"), 0);
    assert_eq!(read("12a"), 0);
    assert_eq!(read("4 2"), 0);
    assert_eq!(read("45.5"), 0);
}

#[test]
fn empty_or_blank_text_reads_as_zero() {
    assert_eq!(read(""), 0);
    assert_eq!(read(" \n\t "), 0);
    assert_eq!(read("-"), 0);
    assert_eq!(read("+"), 0);
}

#[test]
fn signs_and_surrounding_whitespace() {
    assert_eq!(read("  -5000 \t"), -5_000);
    assert_eq!(read("+12"), 12);
    assert_eq!(read("\r\n0042\n"), 42);
    assert_eq!(read("\u{a0}42\u{3000}"), 42);
}

#[test]
fn out_of_range_numbers_read_as_zero() {
    assert_eq!(read("9223372036854775807"), i64::MAX);
    assert_eq!(read("-9223372036854775808"), i64::MIN);
    assert_eq!(read("9223372036854775808"), 0);
    assert_eq!(read("-9223372036854775809"), 0);
    assert_eq!(read("18446744073709551616"), 0);
    assert_eq!(read("99999999999999999999999"), 0);
}
