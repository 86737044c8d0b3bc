//! The pause between two battery checks, written as a human-readable duration
//! such as `10s` or `5m`.
//!
//! The expression is read by the `parse_duration` crate. That crate raises ten
//! to the power of any exponent it finds, so a very large exponent would keep
//! it busy without end; expressions whose exponent has too many digits, not
//! counting leading zeros, are turned away before it is called.

use crate::decimal::{ASCII_NINE, ASCII_ZERO};
use parse_duration::parse::Error;
use vstd::prelude::*;
use vstd::string::*;

verus! {

/// The interval that applies when none is given.
pub const DEFAULT_INTERVAL: &'static str = "10s";

/// The most digits an exponent may have, leading zeros aside.
pub const EXPONENT_DIGITS: usize = 4;

/// The byte of the letter `e`, which introduces an exponent.
pub const LOWER_E: u8 = 101;

/// The byte of the letter `E`, which introduces an exponent as well.
pub const UPPER_E: u8 = 69;

/// The byte of the plus sign.
pub const PLUS: u8 = 43;

/// The byte of the minus sign.
pub const MINUS: u8 = 45;

/// Nanoseconds in one second.
pub const NANOS_PER_SECOND: u32 = 1_000_000_000;

/// A length of time: whole seconds and the nanoseconds beyond them.
#[derive(Clone, Copy, Debug, PartialEq, Eq, Structural)]
pub struct ParsedDuration {
    pub seconds: u64,
    pub nanoseconds: u32,
}

impl ParsedDuration {
    /// The nanoseconds stay below one second.
    pub open spec fn well_formed(&self) -> bool {
        self.nanoseconds < NANOS_PER_SECOND
    }
}

/// Why `parse_duration` turned an expression down.
#[derive(Clone, Copy, Debug, PartialEq, Eq, Structural)]
pub enum DurationFault {
    /// An exponent could not be read as an integer.
    NotAnInteger,
    /// A unit was not recognised.
    UnknownUnit,
    /// The total is negative or does not fit.
    OutOfBounds,
    /// A value stands without a unit.
    NoUnitFound,
    /// No value was found at all.
    NoValueFound,
}

/// Why an interval expression was not accepted.
#[derive(Clone, Copy, Debug, PartialEq, Eq, Structural)]
pub enum IntervalError {
    /// An exponent has more than [`EXPONENT_DIGITS`] digits after its leading
    /// zeros.
    ExponentTooLong,
    /// The expression is not a duration.
    Rejected(DurationFault),
}

/// What `parse_duration::parse` makes of an expression.
pub uninterp spec fn parsed_duration(text: Seq<char>) -> Result<ParsedDuration, DurationFault>;

/// The letter that introduces an exponent, in either case.
pub open spec fn is_exponent_mark(byte: u8) -> bool {
    byte == LOWER_E || byte == UPPER_E
}

/// A plus or minus sign.
pub open spec fn is_sign(byte: u8) -> bool {
    byte == PLUS || byte == MINUS
}

/// An ASCII digit.
pub open spec fn is_digit_byte(byte: u8) -> bool {
    ASCII_ZERO <= byte <= ASCII_NINE
}

/// How many ASCII digits stand in a row from position `at` on.
pub open spec fn digit_run(bytes: Seq<u8>, at: int) -> nat
    decreases bytes.len() - at,
{
    if 0 <= at < bytes.len() && is_digit_byte(bytes[at]) {
        1 + digit_run(bytes, at + 1)
    } else {
        0
    }
}

/// How many zeros stand in a row from position `at` on.
pub open spec fn zero_run(bytes: Seq<u8>, at: int) -> nat
    decreases bytes.len() - at,
{
    if 0 <= at < bytes.len() && bytes[at] == ASCII_ZERO {
        1 + zero_run(bytes, at + 1)
    } else {
        0
    }
}

/// How many digits the number that starts at position `at` has once its
/// leading zeros are left out.
pub open spec fn significant_digits(bytes: Seq<u8>, at: int) -> nat {
    digit_run(bytes, at + zero_run(bytes, at))
}

/// How many significant digits an exponent introduced at position `mark`
/// would have: those of the number that follows the mark, after a sign if
/// there is one.
pub open spec fn exponent_digits(bytes: Seq<u8>, mark: int) -> nat {
    if mark + 1 < bytes.len() && is_sign(bytes[mark + 1]) {
        significant_digits(bytes, mark + 2)
    } else {
        significant_digits(bytes, mark + 1)
    }
}

/// No exponent anywhere in the text has more than [`EXPONENT_DIGITS`]
/// significant digits.
pub open spec fn exponents_are_short(bytes: Seq<u8>) -> bool {
    forall|mark: int|
        0 <= mark < bytes.len() && is_exponent_mark(#[trigger] bytes[mark]) ==> exponent_digits(
            bytes,
            mark,
        ) <= EXPONENT_DIGITS
}

/// The outcome of reading an interval expression.
pub open spec fn interval_of(text: &str) -> Result<ParsedDuration, IntervalError> {
    if !exponents_are_short(text.spec_bytes()) {
        Err(IntervalError::ExponentTooLong)
    } else {
        match parsed_duration(text@) {
            Ok(duration) => Ok(duration),
            Err(fault) => Err(IntervalError::Rejected(fault)),
        }
    }
}

/// Calls `parse_duration::parse`. Trusted: the outcome depends on the text
/// alone, and an accepted duration has fewer than a billion nanoseconds
/// beyond its whole seconds. Texts with a long exponent are kept out, since
/// the call may not come back on them; with the bound that remains, no
/// exponent it evaluates reaches ten thousand.
#[verifier::external_body]
fn parse_expression(text: &str) -> (parsed: Result<ParsedDuration, DurationFault>)
    requires
        exponents_are_short(text.spec_bytes()),
    ensures
        parsed == parsed_duration(text@),
        parsed matches Ok(duration) ==> duration.well_formed(),
{
    match parse_duration::parse(text) {
        Ok(d) => Ok(ParsedDuration { seconds: d.as_secs(), nanoseconds: d.subsec_nanos() }),
        Err(Error::ParseInt(_)) => Err(DurationFault::NotAnInteger),
        Err(Error::UnknownUnit(_)) => Err(DurationFault::UnknownUnit),
        Err(Error::OutOfBounds(_)) => Err(DurationFault::OutOfBounds),
        Err(Error::NoUnitFound(_)) => Err(DurationFault::NoUnitFound),
        Err(Error::NoValueFound(_)) => Err(DurationFault::NoValueFound),
    }
}

/// Tells whether the exponent introduced at `mark` is short enough.
fn exponent_is_short(bytes: &[u8], mark: usize) -> (short: bool)
    requires
        mark < bytes@.len(),
    ensures
        short == (exponent_digits(bytes@, mark as int) <= EXPONENT_DIGITS),
{
    let length = bytes.len();
    let mut at: usize = mark + 1;
    if at < length && (bytes[at] == PLUS || bytes[at] == MINUS) {
        at += 1;
    }
    let ghost number = at as int;
    while at < length && bytes[at] == ASCII_ZERO
        invariant
            length == bytes@.len(),
            number <= at <= length,
            zero_run(bytes@, number) == (at - number) + zero_run(bytes@, at as int),
        decreases length - at,
    {
        at += 1;
    }
    let ghost start = at as int;
    let mut count: usize = 0;
    while at < length
        invariant
            length == bytes@.len(),
            start <= at <= length,
            count <= EXPONENT_DIGITS,
            exponent_digits(bytes@, mark as int) == digit_run(bytes@, start),
            digit_run(bytes@, start) == count + digit_run(bytes@, at as int),
        decreases bytes@.len() - at,
    {
        let byte = bytes[at];
        if byte < ASCII_ZERO || byte > ASCII_NINE {
            return true;
        }
        if count == EXPONENT_DIGITS {
            return false;
        }
        count += 1;
        at += 1;
    }
    true
}

/// Tells whether every exponent in the text is short enough to be evaluated.
pub fn has_short_exponents(text: &str) -> (short: bool)
    ensures
        short == exponents_are_short(text.spec_bytes()),
{
    let bytes = text.as_bytes();
    let mut mark: usize = 0;
    while mark < bytes.len()
        invariant
            mark <= bytes@.len(),
            bytes@ == text.spec_bytes(),
            forall|m: int|
                0 <= m < mark && is_exponent_mark(#[trigger] bytes@[m]) ==> exponent_digits(bytes@, m)
                    <= EXPONENT_DIGITS,
        decreases bytes@.len() - mark,
    {
        let byte = bytes[mark];
        if byte == LOWER_E || byte == UPPER_E {
            if !exponent_is_short(bytes, mark) {
                return false;
            }
        }
        mark += 1;
    }
    true
}

/// Reads an interval expression.
///
/// An expression with an exponent of too many significant digits is refused;
/// any other is accepted or refused as `parse_duration` decides.
pub fn parse_interval(text: &str) -> (interval: Result<ParsedDuration, IntervalError>)
    ensures
        interval == interval_of(text),
        interval matches Ok(duration) ==> duration.well_formed(),
{
    if !has_short_exponents(text) {
        return Err(IntervalError::ExponentTooLong);
    }
    match parse_expression(text) {
        Ok(duration) => Ok(duration),
        Err(fault) => Err(IntervalError::Rejected(fault)),
    }
}

} // verus!
