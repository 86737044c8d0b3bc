use battery_notify::acpi::{
    assemble_snapshot, parse_report, percentage_from_token, read_report, CHARGING_MARK,
    EXPECTED_TIME_PATTERN, PERCENTAGE_PATTERN,
};
use battery_notify::error::EnvironmentError;
use battery_notify::snapshot::BatterySnapshot;

fn snapshot(percentage: usize, charging: bool, expected_time: &str) -> BatterySnapshot {
    BatterySnapshot { percentage, charging, expected_time: expected_time.to_string() }
}

#[test]
fn patterns_are_the_documented_ones() {
    assert_eq!(PERCENTAGE_PATTERN, r"\d+%");
    assert_eq!(EXPECTED_TIME_PATTERN, r"\d\d:\d\d:\d\d");
    assert_eq!(CHARGING_MARK, "Charging");
}

#[test]
fn discharging_report_is_read() {
    let report = "Battery 0: Discharging, 85%, 01:23:45 remaining\n";
    assert_eq!(parse_report(report), Ok(snapshot(85, false, "01:23:45")));
}

#[test]
fn charging_report_is_read() {
    let report = "Battery 0: Charging, 42%, 00:30:12 until charged\n";
    assert_eq!(parse_report(report), Ok(snapshot(42, true, "00:30:12")));
}

#[test]
fn report_without_time_gives_empty_time() {
    assert_eq!(parse_report("Battery 0: Full, 100%\n"), Ok(snapshot(100, false, "")));
    assert_eq!(parse_report("Battery 0: Not charging, 0%\n"), Ok(snapshot(0, false, "")));
}

#[test]
fn first_percentage_and_first_time_win() {
    let report = "Battery 0: Discharging, 7%, 00:10:00 remaining\nBattery 1: Charging, 90%, 02:00:00 until charged\n";
    assert_eq!(parse_report(report), Ok(snapshot(7, true, "00:10:00")));
}

#[test]
fn charging_mark_is_case_sensitive() {
    assert_eq!(parse_report("charging, 50%"), Ok(snapshot(50, false, "")));
    assert_eq!(parse_report("Discharging, 50%"), Ok(snapshot(50, false, "")));
    assert_eq!(parse_report("50% Charging"), Ok(snapshot(50, true, "")));
}

#[test]
fn matcher_is_available_for_both_patterns() {
    for report in ["", "no fields", "1%", "00:00:00", "Charging"] {
        assert_ne!(parse_report(report), Err(EnvironmentError::MatcherUnavailable));
        assert_ne!(
            read_report(report.as_bytes().to_vec()),
            Err(EnvironmentError::MatcherUnavailable)
        );
    }
}

#[test]
fn report_without_percentage_fails() {
    assert_eq!(parse_report(""), Err(EnvironmentError::PercentageMissing));
    assert_eq!(parse_report("No support for device type: power_supply\n"), Err(EnvironmentError::PercentageMissing));
    assert_eq!(parse_report("Battery 0: 85 percent, %"), Err(EnvironmentError::PercentageMissing));
}

#[test]
fn percentage_above_full_fails() {
    assert_eq!(parse_report("Battery 0: Discharging, 101%"), Err(EnvironmentError::PercentageTooLarge));
    assert_eq!(
        parse_report("Battery 0: Discharging, 99999999999999999999999999%"),
        Err(EnvironmentError::PercentageTooLarge)
    );
}

#[test]
fn percentage_in_other_digits_fails() {
    assert_eq!(parse_report("Battery 0: Discharging, ٨٥%"), Err(EnvironmentError::PercentageMalformed));
}

#[test]
fn raw_bytes_are_decoded_then_read() {
    let bytes = "Battery 0: Charging, 64%, 00:45:00 until charged\n".as_bytes().to_vec();
    assert_eq!(read_report(bytes), Ok(snapshot(64, true, "00:45:00")));
    assert_eq!(read_report(Vec::new()), Err(EnvironmentError::PercentageMissing));
}

#[test]
fn bytes_that_are_not_utf8_fail() {
    assert_eq!(read_report(vec![0x42, 0xff, 0x35, 0x30, 0x25]), Err(EnvironmentError::NotUtf8));
    assert_eq!(read_report(vec![0xc3]), Err(EnvironmentError::NotUtf8));
    assert_eq!(read_report(vec![0xed, 0xa0, 0x80]), Err(EnvironmentError::NotUtf8));
}

#[test]
fn token_is_digits_then_percent() {
    assert_eq!(percentage_from_token("85%"), Ok(85));
    assert_eq!(percentage_from_token("0%"), Ok(0));
    assert_eq!(percentage_from_token("100%"), Ok(100));
    assert_eq!(percentage_from_token("007%"), Ok(7));
    assert_eq!(percentage_from_token("101%"), Err(EnvironmentError::PercentageTooLarge));
    assert_eq!(percentage_from_token(""), Err(EnvironmentError::PercentageMalformed));
    assert_eq!(percentage_from_token("%"), Err(EnvironmentError::PercentageMalformed));
    assert_eq!(percentage_from_token("85"), Err(EnvironmentError::PercentageMalformed));
    assert_eq!(percentage_from_token("+5%"), Err(EnvironmentError::PercentageMalformed));
    assert_eq!(percentage_from_token("8 5%"), Err(EnvironmentError::PercentageMalformed));
    assert_eq!(percentage_from_token("85%%"), Err(EnvironmentError::PercentageMalformed));
    assert_eq!(percentage_from_token("٨٥%"), Err(EnvironmentError::PercentageMalformed));
    assert_eq!(percentage_from_token("85⤒"), Err(EnvironmentError::PercentageMalformed));
}

#[test]
fn snapshot_is_assembled_from_found_fields() {
    assert_eq!(
        assemble_snapshot(Some("55%".to_string()), true, Some("01:00:00".to_string())),
        Ok(snapshot(55, true, "01:00:00"))
    );
    assert_eq!(assemble_snapshot(Some("55%".to_string()), false, None), Ok(snapshot(55, false, "")));
    assert_eq!(
        assemble_snapshot(None, true, Some("01:00:00".to_string())),
        Err(EnvironmentError::PercentageMissing)
    );
    assert_eq!(
        assemble_snapshot(Some("abc".to_string()), true, None),
        Err(EnvironmentError::PercentageMalformed)
    );
    assert_eq!(
        assemble_snapshot(Some("300%".to_string()), true, None),
        Err(EnvironmentError::PercentageTooLarge)
    );
}

#[test]
fn every_failure_has_its_message() {
    assert_eq!(EnvironmentError::SourceUnreachable.message(), "Failed to run 'acpi' command");
    assert_eq!(EnvironmentError::NotUtf8.message(), "'acpi' output is not valid utf8");
    assert_eq!(
        EnvironmentError::MatcherUnavailable.message(),
        "Failed to prepare the search of 'acpi' output"
    );
    assert_eq!(
        EnvironmentError::PercentageMissing.message(),
        "Failed to parse acpi output for percentage"
    );
    assert_eq!(
        EnvironmentError::PercentageMalformed.message(),
        "'acpi' percentage value is not a number"
    );
    assert_eq!(
        EnvironmentError::PercentageTooLarge.message(),
        "'acpi' percentage value too large to parse"
    );
}
