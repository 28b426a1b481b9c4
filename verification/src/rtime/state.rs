//! Run state of a timer unit.

use vstd::prelude::*;

verus! {

/// Whether a timer unit is running.
#[derive(Clone, Copy, Debug, PartialEq, Eq, Structural)]
pub enum RunState {
    /// The unit does not count.
    Stopped,
    /// The unit counts.
    Started,
}

impl RunState {
    /// True for `Started`.
    pub fn is_started(&self) -> (r: bool)
        ensures
            r == (*self == RunState::Started),
    {
        match self {
            RunState::Started => true,
            RunState::Stopped => false,
        }
    }
}

} // verus!
