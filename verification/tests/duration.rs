use zyr::errors::DurationError;
use zyr::parse::{parse_duration, secs_to_millis};

#[test]
fn test_parse_duration_only_hour() {
    let result = parse_duration("4h");
    assert!(result.is_ok());
    assert_eq!(result.unwrap(), 4 * 3600);
}

#[test]
fn test_parse_duration_only_minutes() {
    let result = parse_duration("34m");
    assert!(result.is_ok());
    assert_eq!(result.unwrap(), 34 * 60);
}

#[test]
fn test_parse_duration_only_seconds() {
    let result = parse_duration("14s");
    assert!(result.is_ok());
    assert_eq!(result.unwrap(), 14);
}

#[test]
fn test_parse_duration_combined_units() {
    let result = parse_duration("7h49m5s");
    assert!(result.is_ok());
    assert_eq!(result.unwrap(), 7 * 3600 + 49 * 60 + 5);
}

#[test]
fn test_parse_duration_zeros() {
    let result = parse_duration("0h0m0s");
    assert!(result.is_ok());
    assert_eq!(result.unwrap(), 0);
}

#[test]
fn test_parse_duration_random_order() {
    let result = parse_duration("3m5s3h");
    assert!(result.is_ok());
    assert_eq!(result.unwrap(), 3 * 3600 + 3 * 60 + 5);
}

#[test]
fn test_parse_duration_whitespace() {
    let result = parse_duration(" 8h 5s  ");
    assert!(result.is_ok());
    assert_eq!(result.unwrap(), 8 * 3600 + 5);
}

#[test]
fn test_parse_duration_above_23_or_59() {
    let result = parse_duration("161h345m287s");
    assert!(result.is_ok());
    assert_eq!(result.unwrap(), 161 * 3600 + 345 * 60 + 287);
}

#[test]
fn test_parse_duration_empty() {
    let result = parse_duration("");
    assert!(result.is_ok());
    assert_eq!(result.unwrap(), 0);
}

#[test]
fn test_parse_duration_unknown_time_quantity() {
    let result = parse_duration("73q");
    assert!(result.is_err());
}

#[test]
fn parse_duration_exact_reference_values() {
    assert_eq!(parse_duration("1h35m50s"), Ok(5750));
    assert_eq!(parse_duration("3m5s3h"), Ok(10985));
    assert_eq!(parse_duration(" 8h 5s "), Ok(28805));
}

#[test]
fn parse_duration_unknown_unit_names_the_letter() {
    assert_eq!(parse_duration("73q"), Err(DurationError::UnknownUnit { unit: 'q' }));
}

#[test]
fn parse_duration_unit_without_digits_is_invalid() {
    assert_eq!(parse_duration("h"), Err(DurationError::InvalidNumber));
    assert_eq!(parse_duration("5mh"), Err(DurationError::InvalidNumber));
}

#[test]
fn parse_duration_trailing_digits_are_an_error() {
    assert_eq!(parse_duration("73"), Err(DurationError::TrailingNumber));
    assert_eq!(parse_duration("1h30"), Err(DurationError::TrailingNumber));
}

#[test]
fn parse_duration_oversized_number_is_invalid() {
    assert_eq!(
        parse_duration("99999999999999999999999h"),
        Err(DurationError::InvalidNumber)
    );
}

#[test]
fn parse_duration_overflowing_total_is_an_error() {
    assert_eq!(parse_duration("18446744073709551615s"), Ok(u64::MAX));
    assert_eq!(
        parse_duration("18446744073709551615s1s"),
        Err(DurationError::Overflow)
    );
    assert_eq!(parse_duration("9999999999999999999h"), Err(DurationError::Overflow));
}

#[test]
fn parse_duration_whitespace_joins_digit_runs() {
    // Whitespace never flushes the digit buffer, so the digits join.
    assert_eq!(parse_duration("1 2m"), Ok(12 * 60));
}

#[test]
fn parse_duration_skips_unicode_whitespace() {
    assert_eq!(parse_duration("8h\u{a0}5s"), Ok(8 * 3600 + 5));
    assert_eq!(parse_duration("8h\u{b}5s"), Ok(8 * 3600 + 5));
    assert_eq!(parse_duration("8h\u{2003}5s"), Ok(8 * 3600 + 5));
    assert_eq!(parse_duration("8h\u{3000}5s"), Ok(8 * 3600 + 5));
}

#[test]
fn secs_to_millis_scales_and_saturates() {
    assert_eq!(secs_to_millis(0), 0);
    assert_eq!(secs_to_millis(5750), 5_750_000);
    assert_eq!(secs_to_millis(u64::MAX), u64::MAX);
}
