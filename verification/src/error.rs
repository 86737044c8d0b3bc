//! Why a battery reading could not be obtained.

use vstd::prelude::*;

verus! {

/// A failure of the battery source. Every one of them is final: a reading
/// that fails is never retried.
#[derive(Clone, Copy, Debug, PartialEq, Eq, Structural)]
pub enum EnvironmentError {
    /// The battery report could not be fetched at all.
    SourceUnreachable,
    /// The report is not valid UTF-8.
    NotUtf8,
    /// The search for a field in the report could not be set up.
    MatcherUnavailable,
    /// The report holds no charge level.
    PercentageMissing,
    /// What stands where the charge level should is not a decimal number
    /// followed by a percent sign.
    PercentageMalformed,
    /// The charge level is above full.
    PercentageTooLarge,
}

impl EnvironmentError {
    /// The wording of the failure.
    pub open spec fn description(self) -> Seq<char> {
        match self {
            EnvironmentError::SourceUnreachable => "Failed to run 'acpi' command"@,
            EnvironmentError::NotUtf8 => "'acpi' output is not valid utf8"@,
            EnvironmentError::MatcherUnavailable => "Failed to prepare the search of 'acpi' output"@,
            EnvironmentError::PercentageMissing => "Failed to parse acpi output for percentage"@,
            EnvironmentError::PercentageMalformed => "'acpi' percentage value is not a number"@,
            EnvironmentError::PercentageTooLarge => "'acpi' percentage value too large to parse"@,
        }
    }

    /// A message for the user.
    pub fn message(&self) -> (text: &'static str)
        ensures
            text@ == self.description(),
    {
        match self {
            EnvironmentError::SourceUnreachable => "Failed to run 'acpi' command",
            EnvironmentError::NotUtf8 => "'acpi' output is not valid utf8",
            EnvironmentError::MatcherUnavailable => "Failed to prepare the search of 'acpi' output",
            EnvironmentError::PercentageMissing => "Failed to parse acpi output for percentage",
            EnvironmentError::PercentageMalformed => "'acpi' percentage value is not a number",
            EnvironmentError::PercentageTooLarge => "'acpi' percentage value too large to parse",
        }
    }
}

} // verus!
