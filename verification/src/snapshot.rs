//! The state of the battery at one instant.

use vstd::prelude::*;

verus! {

/// The highest charge level a battery can report.
pub const FULL_CHARGE: usize = 100;

/// One reading of the battery.
#[derive(Clone, Debug, PartialEq, Eq)]
pub struct BatterySnapshot {
    /// Charge level in percent.
    pub percentage: usize,
    /// Whether the device is on external power.
    pub charging: bool,
    /// Estimated time until empty or full; empty when unknown.
    pub expected_time: String,
}

/// A snapshot as plain values.
pub struct SnapshotView {
    pub percentage: nat,
    pub charging: bool,
    pub expected_time: Seq<char>,
}

impl View for BatterySnapshot {
    type V = SnapshotView;

    open spec fn view(&self) -> SnapshotView {
        SnapshotView {
            percentage: self.percentage as nat,
            charging: self.charging,
            expected_time: self.expected_time@,
        }
    }
}

impl BatterySnapshot {
    /// The charge level lies between empty and full.
    pub open spec fn in_range(&self) -> bool {
        self.percentage <= FULL_CHARGE
    }

    /// Builds a snapshot, or nothing when the charge level is above full.
    pub fn new(percentage: usize, charging: bool, expected_time: String) -> (snapshot: Option<Self>)
        ensures
            snapshot is Some <==> percentage <= FULL_CHARGE,
            snapshot matches Some(s) ==> s.in_range() && s@ == (SnapshotView {
                percentage: percentage as nat,
                charging,
                expected_time: expected_time@,
            }),
    {
        if percentage <= FULL_CHARGE {
            Some(BatterySnapshot { percentage, charging, expected_time })
        } else {
            None
        }
    }
}

} // verus!
