//! The wording of a notification.

use crate::decimal::{decimal, decimal_text, is_digit, lemma_decimal_round_trip};
use crate::snapshot::{BatterySnapshot, SnapshotView};
use vstd::prelude::*;
use vstd::string::*;

verus! {

/// Shown while the battery is charging.
pub const CHARGING_GLYPH: char = '\u{2912}';

/// Shown while the battery is discharging.
pub const DISCHARGING_GLYPH: char = '\u{2913}';

/// The direction glyph for a charging state.
pub open spec fn glyph(charging: bool) -> char {
    if charging {
        CHARGING_GLYPH
    } else {
        DISCHARGING_GLYPH
    }
}

/// One of the two direction glyphs.
pub open spec fn is_glyph(c: char) -> bool {
    c == CHARGING_GLYPH || c == DISCHARGING_GLYPH
}

/// The notification for a reading: the charge level in decimal, a percent
/// sign, a comma and a space, the expected time, a space, and the glyph.
pub open spec fn notification_text(snapshot: SnapshotView) -> Seq<char> {
    decimal(snapshot.percentage) + seq!['%', ',', ' '] + snapshot.expected_time + seq![
        ' ',
        glyph(snapshot.charging),
    ]
}

/// Words the notification for a snapshot.
pub fn notification(snapshot: &BatterySnapshot) -> (text: String)
    ensures
        text@ == notification_text(snapshot@),
{
    proof {
        reveal_strlit("%, ");
        reveal_strlit(" \u{2912}");
        reveal_strlit(" \u{2913}");
    }
    let mut text = decimal_text(snapshot.percentage);
    text.append("%, ");
    text.append(snapshot.expected_time.as_str());
    if snapshot.charging {
        text.append(" \u{2912}");
    } else {
        text.append(" \u{2913}");
    }
    proof {
        assert("%, "@ == seq!['%', ',', ' ']);
        assert(" \u{2912}"@ == seq![' ', CHARGING_GLYPH]);
        assert(" \u{2913}"@ == seq![' ', DISCHARGING_GLYPH]);
    }
    text
}

/// Every notification starts with the charge level in decimal followed by a
/// percent sign, carries the expected time unchanged, and ends with the glyph
/// that the charging state alone selects. When the expected time holds no
/// glyph of its own, that final glyph is the only one in the text.
pub proof fn lemma_notification_layout(snapshot: SnapshotView)
    ensures
        ({
            let text = notification_text(snapshot);
            let level = decimal(snapshot.percentage);
            let expected_time = snapshot.expected_time;
            let charging = snapshot.charging;
            &&& text.len() == level.len() + expected_time.len() + 5
            &&& text.subrange(0, level.len() as int) == level
            &&& text[level.len() as int] == '%'
            &&& text.subrange(level.len() as int + 3, level.len() as int + 3 + expected_time.len())
                == expected_time
            &&& text.last() == glyph(charging)
            &&& glyph(charging) != glyph(!charging)
            &&& (forall|j: int| 0 <= j < expected_time.len() ==> !is_glyph(#[trigger] expected_time[j]))
                ==> forall|i: int|
                0 <= i < text.len() ==> (is_glyph(#[trigger] text[i]) <==> i == text.len() - 1)
        }),
{
    let text = notification_text(snapshot);
    let level = decimal(snapshot.percentage);
    let expected_time = snapshot.expected_time;
    lemma_decimal_round_trip(snapshot.percentage);
    assert(text.subrange(0, level.len() as int) == level);
    assert(text.subrange(level.len() as int + 3, level.len() as int + 3 + expected_time.len()) == expected_time);
    if forall|j: int| 0 <= j < expected_time.len() ==> !is_glyph(#[trigger] expected_time[j]) {
        assert forall|i: int| 0 <= i < text.len() implies (is_glyph(#[trigger] text[i]) <==> i
            == text.len() - 1) by {
            if i < level.len() {
                assert(text[i] == level[i]);
                assert(is_digit(level[i]));
            } else if i < level.len() + 3 {
            } else if i < level.len() + 3 + expected_time.len() {
                assert(text[i] == expected_time[i - level.len() - 3]);
            } else {
            }
        }
    }
}

} // verus!
