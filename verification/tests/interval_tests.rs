use battery_notify::interval::{
    has_short_exponents, parse_interval, DurationFault, IntervalError, ParsedDuration,
    DEFAULT_INTERVAL, EXPONENT_DIGITS, NANOS_PER_SECOND,
};

fn duration(seconds: u64, nanoseconds: u32) -> ParsedDuration {
    ParsedDuration { seconds, nanoseconds }
}

#[test]
fn default_interval_is_ten_seconds() {
    assert_eq!(DEFAULT_INTERVAL, "10s");
    assert_eq!(parse_interval(DEFAULT_INTERVAL), Ok(duration(10, 0)));
}

#[test]
fn common_expressions_are_read() {
    assert_eq!(parse_interval("5m"), Ok(duration(300, 0)));
    assert_eq!(parse_interval("1h"), Ok(duration(3600, 0)));
    assert_eq!(parse_interval("90"), Ok(duration(90, 0)));
    assert_eq!(parse_interval("1 minute 30 seconds"), Ok(duration(90, 0)));
    assert_eq!(parse_interval("1 day -1 hour"), Ok(duration(82_800, 0)));
    assert_eq!(parse_interval("0s"), Ok(duration(0, 0)));
}

#[test]
fn fractions_land_in_the_nanoseconds() {
    assert_eq!(NANOS_PER_SECOND, 1_000_000_000);
    assert_eq!(parse_interval("1.5s"), Ok(duration(1, 500_000_000)));
    assert_eq!(parse_interval("250 milliseconds"), Ok(duration(0, 250_000_000)));
    assert_eq!(parse_interval("1 ns"), Ok(duration(0, 1)));
}

#[test]
fn short_exponents_are_evaluated() {
    assert_eq!(parse_interval("1e3 seconds"), Ok(duration(1000, 0)));
    assert_eq!(parse_interval("1.26e-1 days"), Ok(duration(10_886, 400_000_000)));
    assert_eq!(parse_interval("5E+2 ms"), Ok(duration(0, 500_000_000)));
    assert_eq!(
        parse_interval("1e9999 seconds"),
        Err(IntervalError::Rejected(DurationFault::OutOfBounds))
    );
    assert_eq!(parse_interval("7e-9999 seconds"), Ok(duration(0, 0)));
}

#[test]
fn long_exponents_are_refused() {
    assert_eq!(EXPONENT_DIGITS, 4);
    assert_eq!(parse_interval("1e10000 seconds"), Err(IntervalError::ExponentTooLong));
    assert_eq!(parse_interval("1e-10000 seconds"), Err(IntervalError::ExponentTooLong));
    assert_eq!(parse_interval("1E+00012345 seconds"), Err(IntervalError::ExponentTooLong));
    assert_eq!(
        parse_interval("1e9223372036854775807 ns"),
        Err(IntervalError::ExponentTooLong)
    );
    assert_eq!(parse_interval("10 se12345conds"), Err(IntervalError::ExponentTooLong));
}

#[test]
fn leading_zeros_of_an_exponent_do_not_count() {
    assert_eq!(parse_interval("1E+00001 seconds"), Ok(duration(10, 0)));
    assert_eq!(parse_interval("1e000000000000000000000002 s"), Ok(duration(100, 0)));
    assert_eq!(parse_interval("5e-0003 s"), Ok(duration(0, 5_000_000)));
    assert_eq!(parse_interval("3e00000 s"), Ok(duration(3, 0)));
    assert_eq!(
        parse_interval("1e0009999 seconds"),
        Err(IntervalError::Rejected(DurationFault::OutOfBounds))
    );
}

#[test]
fn each_fault_is_reported() {
    assert_eq!(parse_interval(""), Err(IntervalError::Rejected(DurationFault::NoValueFound)));
    assert_eq!(parse_interval("seconds"), Err(IntervalError::Rejected(DurationFault::NoValueFound)));
    assert_eq!(parse_interval("10 parsecs"), Err(IntervalError::Rejected(DurationFault::UnknownUnit)));
    assert_eq!(parse_interval("10s 5"), Err(IntervalError::Rejected(DurationFault::NoUnitFound)));
    assert_eq!(parse_interval("-5s"), Err(IntervalError::Rejected(DurationFault::OutOfBounds)));
    assert_eq!(parse_interval("٣s"), Err(IntervalError::Rejected(DurationFault::NotAnInteger)));
}

#[test]
fn exponent_check_counts_digits_after_the_mark() {
    assert!(has_short_exponents(""));
    assert!(has_short_exponents("10 seconds"));
    assert!(has_short_exponents("e"));
    assert!(has_short_exponents("e+"));
    assert!(has_short_exponents("1e1234"));
    assert!(has_short_exponents("1e-1234"));
    assert!(has_short_exponents("1e+1234x5678"));
    assert!(has_short_exponents("12345678 seconds"));
    assert!(has_short_exponents("1e+-12345"));
    assert!(!has_short_exponents("1e12345"));
    assert!(!has_short_exponents("1E12345"));
    assert!(!has_short_exponents("1e+12345"));
    assert!(!has_short_exponents("1e-12345"));
    assert!(!has_short_exponents("1e1 2e22222"));
    assert!(has_short_exponents("ee00000"));
    assert!(has_short_exponents("1e0000000000"));
    assert!(has_short_exponents("1e+000001234"));
    assert!(has_short_exponents("1e-0000000009999 s"));
    assert!(!has_short_exponents("1e000012345"));
    assert!(!has_short_exponents("1e-00010000"));
    assert!(!has_short_exponents("1e10000"));
    assert!(!has_short_exponents("ee12340"));
}
