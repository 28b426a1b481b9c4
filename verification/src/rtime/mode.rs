//! Operating modes of a timer unit.

use vstd::prelude::*;
use crate::rtime::prescaler::Prescaler;

verus! {

/// A unit in counter mode: it advances only when told to.
#[derive(Clone, Copy, Debug, PartialEq, Eq, Structural)]
pub struct Counter;

/// A unit in timer mode: the divided base clock advances it.
#[derive(Clone, Copy, Debug, PartialEq, Eq, Structural)]
pub struct Timer {
    /// The active clock divisor.
    pub prescaler: Prescaler,
}

/// The operating mode of a unit.
#[derive(Clone, Copy, Debug, PartialEq, Eq, Structural)]
pub enum Mode {
    /// Counter mode; there is no divisor.
    Counter(Counter),
    /// Timer mode with its divisor.
    Timer(Timer),
}

impl Mode {
    /// The mode's encoding in the mode-select register.
    pub open spec fn code_of(self) -> u32 {
        match self {
            Mode::Timer(_) => 0,
            Mode::Counter(_) => 1,
        }
    }

    /// The mode's encoding in the mode-select register.
    pub fn code(&self) -> (c: u32)
        ensures
            c == self.code_of(),
    {
        match self {
            Mode::Timer(_) => 0,
            Mode::Counter(_) => 1,
        }
    }

    /// True in counter mode.
    pub fn is_counter(&self) -> (r: bool)
        ensures
            r == (*self is Counter),
    {
        match self {
            Mode::Counter(_) => true,
            Mode::Timer(_) => false,
        }
    }

    /// The active divisor, which only timer mode has.
    pub fn prescaler(&self) -> (p: Option<Prescaler>)
        ensures
            p == match *self {
                Mode::Timer(t) => Some(t.prescaler),
                Mode::Counter(_) => None,
            },
    {
        match self {
            Mode::Timer(t) => Some(t.prescaler),
            Mode::Counter(_) => None,
        }
    }
}

} // verus!
