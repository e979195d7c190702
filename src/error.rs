//! Errors of the valve engine.

use vstd::prelude::*;

verus! {

/// Why an operation on intervals, schedules or the valve registry was rejected.
#[derive(Debug, Clone, Copy, PartialEq, Eq, Structural)]
pub enum Error {
    /// An interval whose begin is not strictly before its end.
    BeginAfterEnd,
    /// An interval that overlaps one already in the same day's schedule.
    OverlappingDurations,
    /// No valve with the given number exists.
    InvalidValveNumber,
    /// A valve with the given number exists already.
    DuplicateValveNumber,
    /// An interval that was looked for and not found.
    MissingDuration,
    /// The actuator address could not be combined with a valve's path.
    InvalidAddress,
}

} // verus!
