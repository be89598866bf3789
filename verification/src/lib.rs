//! Conditions to wait for, their short-circuit combinations, and the
//! drift-corrected polling schedule that evaluates them.
//!
//! The library holds the decisions only. Whoever drives it performs each
//! [`wait::Probe`] against the outside world and hands the [`wait::Reading`]
//! back. Every time is a count of nanoseconds, but for the whole seconds
//! that the text of a duration spells.

pub mod combinations;
pub mod err;
pub mod misc;
pub mod schedule;
pub mod wait;
pub mod waits;

pub use combinations::WaitMultiple;
pub use err::Error;
pub use schedule::{Action, Scheduler};
pub use wait::{Condition, FileInfo, Probe, Reading, Wait};
pub use waits::{Step, Tree, Waits};
