//! A state-tracking interface to the timer peripheral.
//!
//! A handle records the operating mode, counter width, run state and
//! per-channel interrupt state of one timer unit, and hands out the register
//! writes that bring the hardware into the recorded state.

pub mod bitmode;
pub mod interrupt;
pub mod laws;
pub mod mode;
pub mod prescaler;
pub mod registers;
pub mod state;
pub mod timer;

