//! The threshold watcher: which notification points fire for a reading, and
//! how the cursor of the last notified level moves.

use vstd::prelude::*;

verus! {

/// The cursor before anything has been notified: above every charge level a
/// battery can report.
pub const NEVER_NOTIFIED: usize = 101;

/// A notification point fires when the cursor is still above it and the
/// reading has reached it or fallen below it.
pub open spec fn crossed(cursor: usize, percentage: usize, threshold: usize) -> bool {
    cursor > threshold && percentage <= threshold
}

/// The notification points that fire for one reading, in firing order.
///
/// The points are scanned from the last one supplied to the first. Each point
/// that fires becomes the cursor for the points scanned after it.
pub open spec fn fired(thresholds: Seq<usize>, cursor: usize, percentage: usize) -> Seq<usize>
    decreases thresholds.len(),
{
    if thresholds.len() == 0 {
        Seq::empty()
    } else if crossed(cursor, percentage, thresholds.last()) {
        seq![thresholds.last()] + fired(thresholds.drop_last(), thresholds.last(), percentage)
    } else {
        fired(thresholds.drop_last(), cursor, percentage)
    }
}

/// The cursor once a reading has been evaluated: the last point that fired,
/// or the old cursor when none did.
pub open spec fn cursor_after(thresholds: Seq<usize>, cursor: usize, percentage: usize) -> usize {
    let notified = fired(thresholds, cursor, percentage);
    if notified.len() == 0 {
        cursor
    } else {
        notified.last()
    }
}

/// The cursor after a series of readings, evaluated one after another.
pub open spec fn cursor_after_run(thresholds: Seq<usize>, cursor: usize, readings: Seq<usize>) -> usize
    decreases readings.len(),
{
    if readings.len() == 0 {
        cursor
    } else {
        cursor_after(
            thresholds,
            cursor_after_run(thresholds, cursor, readings.drop_last()),
            readings.last(),
        )
    }
}

/// What the watcher remembers between readings.
#[derive(Clone, Debug, PartialEq, Eq)]
pub struct WatchState {
    /// The lowest level the user has been notified of so far.
    pub last_notified_percentage: usize,
    /// The notification points, in the order they were supplied.
    pub thresholds: Vec<usize>,
}

impl WatchState {
    /// A watcher that has not notified anything yet.
    pub fn new(thresholds: Vec<usize>) -> (state: Self)
        ensures
            state.thresholds == thresholds,
            state.last_notified_percentage == NEVER_NOTIFIED,
    {
        WatchState { last_notified_percentage: NEVER_NOTIFIED, thresholds }
    }

    /// Evaluates one reading and returns the notification points that fire,
    /// in firing order. The cursor ends at the last of them.
    pub fn tick(&mut self, percentage: usize) -> (notified: Vec<usize>)
        ensures
            final(self).thresholds == old(self).thresholds,
            notified@ == fired(old(self).thresholds@, old(self).last_notified_percentage, percentage),
            final(self).last_notified_percentage == cursor_after(
                old(self).thresholds@,
                old(self).last_notified_percentage,
                percentage,
            ),
            final(self).last_notified_percentage <= old(self).last_notified_percentage,
            notified@.len() == 0 <==> forall|i: int|
                0 <= i < old(self).thresholds@.len() ==> !crossed(
                    old(self).last_notified_percentage,
                    percentage,
                    #[trigger] old(self).thresholds@[i],
                ),
    {
        let ghost all = self.thresholds@;
        let ghost start = self.last_notified_percentage;
        let mut notified: Vec<usize> = Vec::new();
        let mut i: usize = self.thresholds.len();
        proof {
            assert(all.take(i as int) == all);
        }
        while i > 0
            invariant
                i <= self.thresholds.len(),
                self.thresholds@ == all,
                self.thresholds == old(self).thresholds,
                notified@ + fired(all.take(i as int), self.last_notified_percentage, percentage)
                    == fired(all, start, percentage),
                self.last_notified_percentage == if notified@.len() == 0 {
                    start
                } else {
                    notified@.last()
                },
            decreases i,
        {
            i -= 1;
            let threshold = self.thresholds[i];
            proof {
                let upto = all.take(i + 1);
                assert(upto.last() == threshold);
                assert(upto.drop_last() == all.take(i as int));
            }
            if self.last_notified_percentage > threshold && percentage <= threshold {
                proof {
                    assert((notified@ + seq![threshold]) + fired(
                        all.take(i as int),
                        threshold,
                        percentage,
                    ) == notified@ + (seq![threshold] + fired(
                        all.take(i as int),
                        threshold,
                        percentage,
                    )));
                }
                self.last_notified_percentage = threshold;
                notified.push(threshold);
            }
        }
        proof {
            assert(notified@ + Seq::<usize>::empty() == notified@);
            lemma_fired_shape(all, start, percentage);
            lemma_quiet_exactly_when_nothing_crossed(all, start, percentage);
        }
        notified
    }
}

/// Every point that fires is one of the supplied points, lies at or above the
/// reading and below the cursor, and is lower than each point that fired
/// before it in the same scan.
pub proof fn lemma_fired_shape(thresholds: Seq<usize>, cursor: usize, percentage: usize)
    ensures
        forall|k: int|
            0 <= k < fired(thresholds, cursor, percentage).len() ==> {
                let t = #[trigger] fired(thresholds, cursor, percentage)[k];
                thresholds.contains(t) && percentage <= t < cursor
            },
        forall|j: int, k: int|
            0 <= j < k < fired(thresholds, cursor, percentage).len() ==> fired(
                thresholds,
                cursor,
                percentage,
            )[k] < fired(thresholds, cursor, percentage)[j],
        cursor_after(thresholds, cursor, percentage) <= cursor,
    decreases thresholds.len(),
{
    if thresholds.len() > 0 {
        let last = thresholds.last();
        let rest = thresholds.drop_last();
        let notified = fired(thresholds, cursor, percentage);
        if crossed(cursor, percentage, last) {
            lemma_fired_shape(rest, last, percentage);
            let tail = fired(rest, last, percentage);
            assert(notified == seq![last] + tail);
            assert forall|k: int| 0 <= k < notified.len() implies {
                let t = #[trigger] notified[k];
                thresholds.contains(t) && percentage <= t < cursor
            } by {
                if k == 0 {
                    assert(thresholds[thresholds.len() - 1] == last);
                } else {
                    let t = tail[k - 1];
                    assert(notified[k] == t);
                    assert(rest.contains(t));
                    let at = choose|at: int| 0 <= at < rest.len() && rest[at] == t;
                    assert(thresholds[at] == t);
                }
            }
            assert forall|j: int, k: int| 0 <= j < k < notified.len() implies notified[k]
                < notified[j] by {
                assert(notified[k] == tail[k - 1]);
                if j > 0 {
                    assert(notified[j] == tail[j - 1]);
                }
            }
        } else {
            lemma_fired_shape(rest, cursor, percentage);
            assert(notified == fired(rest, cursor, percentage));
            assert forall|k: int| 0 <= k < notified.len() implies {
                let t = #[trigger] notified[k];
                thresholds.contains(t) && percentage <= t < cursor
            } by {
                let t = notified[k];
                assert(rest.contains(t));
                let at = choose|at: int| 0 <= at < rest.len() && rest[at] == t;
                assert(thresholds[at] == t);
            }
        }
    }
}

/// A scan is silent exactly when no supplied point is crossed.
pub proof fn lemma_quiet_exactly_when_nothing_crossed(
    thresholds: Seq<usize>,
    cursor: usize,
    percentage: usize,
)
    ensures
        fired(thresholds, cursor, percentage).len() == 0 <==> forall|i: int|
            0 <= i < thresholds.len() ==> !crossed(cursor, percentage, #[trigger] thresholds[i]),
    decreases thresholds.len(),
{
    if thresholds.len() > 0 {
        let last = thresholds.last();
        let rest = thresholds.drop_last();
        if crossed(cursor, percentage, last) {
            assert(fired(thresholds, cursor, percentage).len() > 0);
            assert(crossed(cursor, percentage, thresholds[thresholds.len() - 1]));
        } else {
            lemma_quiet_exactly_when_nothing_crossed(rest, cursor, percentage);
            if fired(rest, cursor, percentage).len() == 0 {
                assert forall|i: int| 0 <= i < thresholds.len() implies !crossed(
                    cursor,
                    percentage,
                    #[trigger] thresholds[i],
                ) by {
                    if i < rest.len() {
                        assert(rest[i] == thresholds[i]);
                    }
                }
            } else {
                let i = choose|i: int|
                    0 <= i < rest.len() && crossed(cursor, percentage, #[trigger] rest[i]);
                assert(crossed(cursor, percentage, thresholds[i]));
            }
        }
    }
}

/// The cursor after a reading is the lowest of the old cursor and the supplied
/// points at or above the reading: it is below none of them, and it is either
/// the old cursor or one of those points.
pub proof fn lemma_cursor_is_lowest_reached(thresholds: Seq<usize>, cursor: usize, percentage: usize)
    ensures
        cursor_after(thresholds, cursor, percentage) <= cursor,
        forall|i: int|
            0 <= i < thresholds.len() && percentage <= #[trigger] thresholds[i] ==> cursor_after(
                thresholds,
                cursor,
                percentage,
            ) <= thresholds[i],
        cursor_after(thresholds, cursor, percentage) == cursor || (thresholds.contains(
            cursor_after(thresholds, cursor, percentage),
        ) && percentage <= cursor_after(thresholds, cursor, percentage)),
    decreases thresholds.len(),
{
    lemma_fired_shape(thresholds, cursor, percentage);
    if thresholds.len() > 0 {
        let last = thresholds.last();
        let rest = thresholds.drop_last();
        let after = cursor_after(thresholds, cursor, percentage);
        if crossed(cursor, percentage, last) {
            lemma_cursor_is_lowest_reached(rest, last, percentage);
            let tail = fired(rest, last, percentage);
            assert(fired(thresholds, cursor, percentage) == seq![last] + tail);
            assert(after == cursor_after(rest, last, percentage));
            assert forall|i: int|
                0 <= i < thresholds.len() && percentage <= #[trigger] thresholds[i] implies after
                <= thresholds[i] by {
                if i < rest.len() {
                    assert(rest[i] == thresholds[i]);
                }
            }
        } else {
            lemma_cursor_is_lowest_reached(rest, cursor, percentage);
            assert(after == cursor_after(rest, cursor, percentage));
            assert forall|i: int|
                0 <= i < thresholds.len() && percentage <= #[trigger] thresholds[i] implies after
                <= thresholds[i] by {
                if i < rest.len() {
                    assert(rest[i] == thresholds[i]);
                }
            }
        }
    }
}

/// However many readings follow, the cursor never rises, and no point at or
/// above the level the cursor once had fires again.
pub proof fn lemma_no_repeat_at_or_above_cursor(
    thresholds: Seq<usize>,
    cursor: usize,
    later: Seq<usize>,
    percentage: usize,
)
    ensures
        cursor_after_run(thresholds, cursor, later) <= cursor,
        forall|k: int|
            0 <= k < fired(
                thresholds,
                cursor_after_run(thresholds, cursor, later),
                percentage,
            ).len() ==> #[trigger] fired(
                thresholds,
                cursor_after_run(thresholds, cursor, later),
                percentage,
            )[k] < cursor,
    decreases later.len(),
{
    if later.len() > 0 {
        lemma_no_repeat_at_or_above_cursor(thresholds, cursor, later.drop_last(), later.last());
        lemma_fired_shape(
            thresholds,
            cursor_after_run(thresholds, cursor, later.drop_last()),
            later.last(),
        );
    }
    lemma_fired_shape(thresholds, cursor_after_run(thresholds, cursor, later), percentage);
}

/// A reading that is no lower than the one before it fires nothing.
pub proof fn lemma_steady_reading_is_quiet(
    thresholds: Seq<usize>,
    cursor: usize,
    percentage: usize,
    next: usize,
)
    requires
        percentage <= next,
    ensures
        fired(thresholds, cursor_after(thresholds, cursor, percentage), next).len() == 0,
        cursor_after(thresholds, cursor_after(thresholds, cursor, percentage), next)
            == cursor_after(thresholds, cursor, percentage),
{
    let after = cursor_after(thresholds, cursor, percentage);
    lemma_cursor_is_lowest_reached(thresholds, cursor, percentage);
    lemma_quiet_exactly_when_nothing_crossed(thresholds, after, next);
}

/// A reading exactly on a supplied point that the cursor is still above
/// fires that point.
pub proof fn lemma_reading_on_threshold_fires(thresholds: Seq<usize>, cursor: usize, threshold: usize)
    requires
        thresholds.contains(threshold),
        cursor > threshold,
    ensures
        fired(thresholds, cursor, threshold).contains(threshold),
    decreases thresholds.len(),
{
    let last = thresholds.last();
    let rest = thresholds.drop_last();
    let notified = fired(thresholds, cursor, threshold);
    let at = choose|at: int| 0 <= at < thresholds.len() && thresholds[at] == threshold;
    if crossed(cursor, threshold, last) {
        let tail = fired(rest, last, threshold);
        assert(notified == seq![last] + tail);
        if last == threshold {
            assert(notified[0] == threshold);
        } else {
            assert(rest[at] == threshold);
            lemma_reading_on_threshold_fires(rest, last, threshold);
            let k = choose|k: int| 0 <= k < tail.len() && tail[k] == threshold;
            assert(notified[k + 1] == threshold);
        }
    } else {
        assert(rest[at] == threshold);
        lemma_reading_on_threshold_fires(rest, cursor, threshold);
    }
}

} // verus!
