//! One timed interval of work on a project.

use vstd::prelude::*;

verus! {

/// An interval that started at `start_time` (seconds since the Unix epoch)
/// and ended at `end_time`; while `end_time` is `None` the timer is running.
#[derive(Debug, Clone, Copy)]
pub struct Timer {
    pub id: u32,
    pub start_time: u64,
    pub end_time: Option<u64>,
}

impl Timer {
    /// Whether the timer has not been stopped yet.
    pub open spec fn is_running(self) -> bool {
        self.end_time is None
    }

    /// Whether `self` and `other` are the same timer, field by field.
    pub fn same_as(&self, other: &Timer) -> (same: bool)
        ensures
            same == (*self == *other),
    {
        let same_end = match (self.end_time, other.end_time) {
            (Some(a), Some(b)) => a == b,
            (None, None) => true,
            _ => false,
        };
        self.id == other.id && self.start_time == other.start_time && same_end
    }
}

} // verus!
