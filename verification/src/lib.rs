//! Battery-state notification logic: reading a battery report, deciding when a
//! charge threshold has been crossed, and wording the notification.
//!
//! The crate performs no input or output. A caller samples the battery, hands
//! the raw report in, and carries out the actions that come back.

pub mod acpi;
pub mod decimal;
pub mod error;
pub mod interval;
pub mod notification;
pub mod session;
pub mod snapshot;
pub mod watch;
