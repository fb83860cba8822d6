use lang_lessons::conversion::Number;
use lang_lessons::conversion::number_from_text;
use lang_lessons::error_handling::DoubleError;
use lang_lessons::error_handling::WrappingError;
use lang_lessons::error_handling::double_parsed;
use lang_lessons::error_handling::parse_all;
use lang_lessons::error_handling::parse_keep_ok;
use lang_lessons::error_handling::parse_partition;
use lang_lessons::error_handling::parse_with_unit_error;
use lang_lessons::parsing::ParseError;
use lang_lessons::parsing::parse_i32;
use lang_lessons::parsing::parse_i32_bytes;

#[test]
fn parses_plain_and_turbofished_lessons() {
    assert_eq!(parse_i32("5"), Ok(5));
    assert_eq!(parse_i32("10"), Ok(10));
    assert_eq!(parse_i32("-42"), Ok(-42));
    assert_eq!(parse_i32("0"), Ok(0));
    assert_eq!(parse_i32("+5"), Ok(5));
}

#[test]
fn rejects_what_is_not_a_number() {
    assert_eq!(parse_i32(""), Err(ParseError::Empty));
    assert_eq!(parse_i32("-"), Err(ParseError::InvalidDigit));
    assert_eq!(parse_i32("+"), Err(ParseError::InvalidDigit));
    assert_eq!(parse_i32("+-5"), Err(ParseError::InvalidDigit));
    assert_eq!(parse_i32("cake"), Err(ParseError::InvalidDigit));
    assert_eq!(parse_i32("qweqew"), Err(ParseError::InvalidDigit));
    assert_eq!(parse_i32("12a"), Err(ParseError::InvalidDigit));
}

#[test]
fn reports_overflow_at_the_exact_boundary() {
    assert_eq!(parse_i32("2147483647"), Ok(i32::MAX));
    assert_eq!(parse_i32("2147483648"), Err(ParseError::Overflow));
    assert_eq!(parse_i32("+2147483647"), Ok(i32::MAX));
    assert_eq!(parse_i32("+2147483648"), Err(ParseError::Overflow));
    assert_eq!(parse_i32("-2147483648"), Ok(i32::MIN));
    assert_eq!(parse_i32("-2147483649"), Err(ParseError::Overflow));
    assert_eq!(parse_i32("99999999999999999999"), Err(ParseError::Overflow));
}

#[test]
fn byte_and_str_entries_agree() {
    assert_eq!(parse_i32_bytes(b"93"), Ok(93));
    assert_eq!(parse_i32_bytes(b"18"), Ok(18));
    assert_eq!(parse_i32_bytes(b"tofu"), Err(ParseError::InvalidDigit));
}

#[test]
fn unit_error_replaces_any_reason() {
    assert_eq!(parse_with_unit_error(b"cake"), Err(DoubleError));
    assert_eq!(parse_with_unit_error(b"7"), Ok(7));
}

#[test]
fn wrapping_keeps_the_specific_reason() {
    assert_eq!(double_parsed(b"21"), Ok(42));
    assert_eq!(double_parsed(b"qweqew"), Err(WrappingError::Parse(ParseError::InvalidDigit)));
    assert_eq!(double_parsed(b""), Err(WrappingError::Parse(ParseError::Empty)));
}

fn byte_rows(rows: &[&str]) -> Vec<Vec<u8>> {
    rows.iter().map(|r| r.as_bytes().to_vec()).collect()
}

#[test]
fn iterating_fails_the_whole_operation_on_first_bad_entry() {
    let rows = byte_rows(&["tofu", "93", "18"]);
    assert_eq!(parse_all(&rows), Err(ParseError::InvalidDigit));
    let clean = byte_rows(&["93", "18"]);
    assert_eq!(parse_all(&clean), Ok(vec![93, 18]));
}

#[test]
fn iterating_can_filter_out_failures() {
    let rows = byte_rows(&["tofu", "93", "18"]);
    assert_eq!(parse_keep_ok(&rows), vec![93, 18]);
}

#[test]
fn iterating_can_group_values_and_failures() {
    let rows = byte_rows(&["tofu", "93", "18"]);
    let (numbers, failures) = parse_partition(&rows);
    assert_eq!(numbers, vec![93, 18]);
    assert_eq!(failures, vec![ParseError::InvalidDigit]);
}

#[test]
fn numbers_come_back_from_text() {
    assert_eq!(number_from_text("42"), Ok(Number { value: 42 }));
    assert_eq!(number_from_text("x"), Err(ParseError::InvalidDigit));
}
