//! Driver-level state tracking for the nRF52840's timer peripherals.

pub mod rtime;
