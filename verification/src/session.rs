//! One run of the notifier, as a state machine.
//!
//! The caller samples the battery and hands each sample to the session; the
//! session answers with what to do next. A single-shot session notifies once
//! and ends. A watching session notifies for every point that fires, then asks
//! for a pause of its fixed interval before the next sample. A sample that
//! failed ends either kind of session without any notification.

use crate::error::EnvironmentError;
use crate::interval::ParsedDuration;
use crate::notification::{notification, notification_text};
use crate::snapshot::BatterySnapshot;
use crate::watch::{cursor_after, fired, WatchState, NEVER_NOTIFIED};
use vstd::prelude::*;

verus! {

/// The settings of a watch.
#[derive(Clone, Debug, PartialEq, Eq)]
pub struct Watcher {
    /// A notification is sent when the battery falls to any of these levels.
    pub notification_points: Vec<usize>,
    /// Time between battery checks.
    pub interval: ParsedDuration,
}

/// What the notifier is asked to do.
#[derive(Clone, Debug, PartialEq, Eq)]
pub enum Command {
    /// Send one notification with the current battery state.
    Get,
    /// Send a notification whenever a notification point is reached.
    Watch(Watcher),
}

impl Default for Command {
    fn default() -> (command: Self)
        ensures
            command is Get,
    {
        Command::Get
    }
}

/// A run in progress.
#[derive(Clone, Debug, PartialEq, Eq)]
pub enum Session {
    /// One sample, one notification.
    Single,
    /// Sample, notify what fired, pause, and again.
    Watching { state: WatchState, interval: ParsedDuration },
}

/// What the caller does after a sample.
#[derive(Clone, Debug, PartialEq, Eq)]
pub enum Step {
    /// Stop with this failure. Nothing is to be sent.
    Abort { error: EnvironmentError },
    /// Send this notification, then stop.
    Finish { notification: String },
    /// Send these notifications in order, pause for the interval, then sample
    /// again.
    Sleep { notifications: Vec<String>, interval: ParsedDuration },
}

impl Session {
    /// Begins the run that a command asks for. A watch starts with nothing
    /// notified yet.
    pub fn start(command: Command) -> (session: Session)
        ensures
            command is Get ==> session is Single,
            command matches Command::Watch(watcher) ==> session == (Session::Watching {
                state: WatchState {
                    last_notified_percentage: NEVER_NOTIFIED,
                    thresholds: watcher.notification_points,
                },
                interval: watcher.interval,
            }),
    {
        match command {
            Command::Get => Session::Single,
            Command::Watch(watcher) => Session::Watching {
                state: WatchState::new(watcher.notification_points),
                interval: watcher.interval,
            },
        }
    }

    /// Takes one sample and says what to do next.
    ///
    /// A failed sample aborts and leaves the session as it was. A single-shot
    /// session finishes with exactly one notification, whatever the reading.
    /// A watching session moves its cursor as the reading demands and asks
    /// for one notification per point that fired, each worded from this
    /// sample, followed by a pause of the session's interval.
    pub fn on_sample(self, sample: Result<BatterySnapshot, EnvironmentError>) -> (next: (
        Session,
        Step,
    ))
        ensures
            sample matches Err(error) ==> next.0 == self && next.1 == (Step::Abort { error }),
            sample matches Ok(snapshot) ==> match self {
                Session::Single => {
                    &&& next.0 is Single
                    &&& next.1 matches Step::Finish { notification }
                    &&& notification@ == notification_text(snapshot@)
                },
                Session::Watching { state, interval } => {
                    &&& next.0 == (Session::Watching {
                        state: WatchState {
                            last_notified_percentage: cursor_after(
                                state.thresholds@,
                                state.last_notified_percentage,
                                snapshot.percentage,
                            ),
                            thresholds: state.thresholds,
                        },
                        interval,
                    })
                    &&& next.1 matches Step::Sleep { notifications, interval: pause }
                    &&& pause == interval
                    &&& notifications@.len() == fired(
                        state.thresholds@,
                        state.last_notified_percentage,
                        snapshot.percentage,
                    ).len()
                    &&& forall|k: int|
                        0 <= k < notifications@.len() ==> (#[trigger] notifications@[k])@
                            == notification_text(snapshot@)
                },
            },
    {
        let snapshot = match sample {
            Ok(snapshot) => snapshot,
            Err(error) => {
                return (self, Step::Abort { error });
            },
        };
        match self {
            Session::Single => (Session::Single, Step::Finish { notification: notification(&snapshot) }),
            Session::Watching { state, interval } => {
                let mut state = state;
                let notified = state.tick(snapshot.percentage);
                let mut notifications: Vec<String> = Vec::new();
                let mut sent: usize = 0;
                while sent < notified.len()
                    invariant
                        sent <= notified@.len(),
                        notifications@.len() == sent,
                        forall|k: int|
                            0 <= k < notifications@.len() ==> (#[trigger] notifications@[k])@
                                == notification_text(snapshot@),
                    decreases notified@.len() - sent,
                {
                    notifications.push(notification(&snapshot));
                    sent += 1;
                }
                (Session::Watching { state, interval }, Step::Sleep { notifications, interval })
            },
        }
    }
}

} // verus!
