//! Reading a battery snapshot out of the report that the `acpi` utility prints.
//!
//! The charge level is the first run of digits followed by a percent sign, the
//! expected time the first `hh:mm:ss` group, and the battery counts as
//! charging when the word `Charging` occurs anywhere in the report.

use crate::decimal::{decimal_reading, read_decimal, DecimalReading};
use crate::error::EnvironmentError;
use crate::snapshot::{BatterySnapshot, SnapshotView, FULL_CHARGE};
use vstd::prelude::*;
use vstd::string::*;
use vstd::utf8::{decode_utf8, valid_utf8};

verus! {

/// Finds the charge level: digits followed by a percent sign.
pub const PERCENTAGE_PATTERN: &'static str = "\\d+%";

/// Finds the expected time: hours, minutes and seconds, two digits each.
pub const EXPECTED_TIME_PATTERN: &'static str = "\\d\\d:\\d\\d:\\d\\d";

/// The word that marks a battery on external power.
pub const CHARGING_MARK: &'static str = "Charging";

#[verifier::external_type_specification]
#[verifier::external_body]
pub struct ExPatternError(regex::Error);

/// Whether `regex::Regex::new` accepts a pattern: it is well formed and its
/// compiled form stays within the size limit.
pub uninterp spec fn pattern_compiles(pattern: Seq<char>) -> bool;

/// The text of the first match of a regular expression in a haystack, as the
/// `regex` crate finds it, or `None` when nothing matches.
pub uninterp spec fn first_match(pattern: Seq<char>, haystack: Seq<char>) -> Option<Seq<char>>;

/// `needle` occurs somewhere in `text` as a contiguous run of characters.
pub open spec fn occurs_in(needle: Seq<char>, text: Seq<char>) -> bool {
    exists|at: int|
        0 <= at <= text.len() - needle.len() && #[trigger] text.subrange(at, at + needle.len())
            == needle
}

/// The characters of a text that may be absent.
pub open spec fn text_view(text: Option<String>) -> Option<Seq<char>> {
    match text {
        Some(t) => Some(t@),
        None => None,
    }
}

/// A parsing outcome as plain values.
pub open spec fn outcome_view(outcome: Result<BatterySnapshot, EnvironmentError>) -> Result<
    SnapshotView,
    EnvironmentError,
> {
    match outcome {
        Ok(snapshot) => Ok(snapshot@),
        Err(error) => Err(error),
    }
}

/// Calls `regex::Regex::new` on the pattern and `regex::Regex::find` on the
/// haystack. Trusted: whether the pattern compiles depends on the pattern
/// alone, and when it does, the result is the text of the match that `find`
/// reports, which depends on the pattern and the haystack alone. Nothing is
/// claimed about which patterns compile.
#[verifier::external_body]
fn find_first(pattern: &str, haystack: &str) -> (found: Result<Option<String>, regex::Error>)
    ensures
        found is Ok <==> pattern_compiles(pattern@),
        found matches Ok(token) ==> text_view(token) == first_match(pattern@, haystack@),
{
    let matcher = regex::Regex::new(pattern)?;
    match matcher.find(haystack) {
        Some(found) => Ok(Some(found.as_str().to_owned())),
        None => Ok(None),
    }
}

/// Calls `str::contains` with a string pattern. Trusted: the result tells
/// whether the needle occurs in the text as a contiguous run of characters.
#[verifier::external_body]
fn contains(text: &str, needle: &str) -> (found: bool)
    ensures
        found == occurs_in(needle@, text@),
{
    text.contains(needle)
}

/// Calls `String::from_utf8`. Trusted: the bytes are accepted exactly when
/// they are valid UTF-8, and the text then holds the characters they encode.
#[verifier::external_body]
fn text_from_utf8(bytes: Vec<u8>) -> (text: Option<String>)
    ensures
        text is Some <==> valid_utf8(bytes@),
        text matches Some(t) ==> t@ == decode_utf8(bytes@),
{
    match String::from_utf8(bytes) {
        Ok(text) => Some(text),
        Err(_) => None,
    }
}

/// The charge level that a token of the report denotes: a decimal number no
/// greater than a full charge, followed by a percent sign.
pub open spec fn percentage_of(token: Seq<char>) -> Result<usize, EnvironmentError> {
    if token.len() == 0 || token.last() != '%' {
        Err(EnvironmentError::PercentageMalformed)
    } else {
        match decimal_reading(token.drop_last(), FULL_CHARGE) {
            DecimalReading::NotDecimal => Err(EnvironmentError::PercentageMalformed),
            DecimalReading::AboveLimit => Err(EnvironmentError::PercentageTooLarge),
            DecimalReading::Value(level) => Ok(level),
        }
    }
}

/// The snapshot that the fields found in a report make up. The charge level
/// is required; a missing expected time is the empty text.
pub open spec fn snapshot_of(
    percentage_token: Option<Seq<char>>,
    charging: bool,
    time_token: Option<Seq<char>>,
) -> Result<SnapshotView, EnvironmentError> {
    match percentage_token {
        None => Err(EnvironmentError::PercentageMissing),
        Some(token) => match percentage_of(token) {
            Err(error) => Err(error),
            Ok(level) => Ok(
                SnapshotView {
                    percentage: level as nat,
                    charging,
                    expected_time: match time_token {
                        Some(time) => time,
                        None => Seq::empty(),
                    },
                },
            ),
        },
    }
}

/// Reads the charge level from a token such as `85%`.
pub fn percentage_from_token(token: &str) -> (level: Result<usize, EnvironmentError>)
    ensures
        level == percentage_of(token@),
        level matches Ok(value) ==> value <= FULL_CHARGE,
{
    let length = token.unicode_len();
    if length == 0 {
        return Err(EnvironmentError::PercentageMalformed);
    }
    if token.get_char(length - 1) != '%' {
        return Err(EnvironmentError::PercentageMalformed);
    }
    let digits = token.substring_char(0, length - 1);
    proof {
        assert(digits@ == token@.drop_last());
    }
    match read_decimal(digits, FULL_CHARGE) {
        DecimalReading::NotDecimal => Err(EnvironmentError::PercentageMalformed),
        DecimalReading::AboveLimit => Err(EnvironmentError::PercentageTooLarge),
        DecimalReading::Value(value) => Ok(value),
    }
}

/// Puts a snapshot together from the fields found in a report.
pub fn assemble_snapshot(
    percentage_token: Option<String>,
    charging: bool,
    time_token: Option<String>,
) -> (outcome: Result<BatterySnapshot, EnvironmentError>)
    ensures
        outcome_view(outcome) == snapshot_of(
            text_view(percentage_token),
            charging,
            text_view(time_token),
        ),
        outcome matches Ok(snapshot) ==> snapshot.in_range(),
{
    let token = match percentage_token {
        Some(token) => token,
        None => {
            return Err(EnvironmentError::PercentageMissing);
        },
    };
    let percentage = match percentage_from_token(token.as_str()) {
        Ok(level) => level,
        Err(error) => {
            return Err(error);
        },
    };
    let expected_time = match time_token {
        Some(time) => time,
        None => String::new(),
    };
    Ok(BatterySnapshot { percentage, charging, expected_time })
}

/// What a report reads as. When either pattern is not accepted by the matcher
/// the search cannot be set up; otherwise the fields that the patterns and
/// the charging mark locate in the report make up the outcome.
pub open spec fn report_outcome(report: Seq<char>) -> Result<SnapshotView, EnvironmentError> {
    if !pattern_compiles(PERCENTAGE_PATTERN@) || !pattern_compiles(EXPECTED_TIME_PATTERN@) {
        Err(EnvironmentError::MatcherUnavailable)
    } else {
        snapshot_of(
            first_match(PERCENTAGE_PATTERN@, report),
            occurs_in(CHARGING_MARK@, report),
            first_match(EXPECTED_TIME_PATTERN@, report),
        )
    }
}

/// Reads a snapshot out of the text of a report.
pub fn parse_report(report: &str) -> (outcome: Result<BatterySnapshot, EnvironmentError>)
    ensures
        outcome_view(outcome) == report_outcome(report@),
        outcome matches Ok(snapshot) ==> snapshot.in_range(),
{
    let percentage_token = match find_first(PERCENTAGE_PATTERN, report) {
        Ok(token) => token,
        Err(_) => {
            return Err(EnvironmentError::MatcherUnavailable);
        },
    };
    let time_token = match find_first(EXPECTED_TIME_PATTERN, report) {
        Ok(token) => token,
        Err(_) => {
            return Err(EnvironmentError::MatcherUnavailable);
        },
    };
    let charging = contains(report, CHARGING_MARK);
    assemble_snapshot(percentage_token, charging, time_token)
}

/// Reads a snapshot out of the raw bytes of a report.
///
/// Bytes that are not valid UTF-8 are rejected; otherwise the outcome is that
/// of [`parse_report`] on the decoded text.
pub fn read_report(output: Vec<u8>) -> (outcome: Result<BatterySnapshot, EnvironmentError>)
    ensures
        !valid_utf8(output@) ==> outcome == Err::<BatterySnapshot, EnvironmentError>(
            EnvironmentError::NotUtf8,
        ),
        valid_utf8(output@) ==> outcome_view(outcome) == report_outcome(decode_utf8(output@)),
        outcome matches Ok(snapshot) ==> snapshot.in_range(),
{
    match text_from_utf8(output) {
        Some(report) => parse_report(report.as_str()),
        None => Err(EnvironmentError::NotUtf8),
    }
}

} // verus!
