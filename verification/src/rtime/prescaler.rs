//! Clock divisors of a unit in timer mode.

use vstd::prelude::*;

verus! {

/// A divisor exponent: the base clock is divided by two to this power.
#[derive(Clone, Copy, Debug, PartialEq, Eq, Structural)]
pub enum Prescaler {
    /// Divide by 1.
    Div1,
    /// Divide by 2.
    Div2,
    /// Divide by 4.
    Div4,
    /// Divide by 8.
    Div8,
    /// Divide by 16.
    Div16,
    /// Divide by 32.
    Div32,
    /// Divide by 64.
    Div64,
    /// Divide by 128.
    Div128,
    /// Divide by 256.
    Div256,
    /// Divide by 512.
    Div512,
}

impl Prescaler {
    /// The exponent, as the divisor register holds it.
    pub open spec fn value_of(self) -> u32 {
        match self {
            Prescaler::Div1 => 0,
            Prescaler::Div2 => 1,
            Prescaler::Div4 => 2,
            Prescaler::Div8 => 3,
            Prescaler::Div16 => 4,
            Prescaler::Div32 => 5,
            Prescaler::Div64 => 6,
            Prescaler::Div128 => 7,
            Prescaler::Div256 => 8,
            Prescaler::Div512 => 9,
        }
    }

    /// The exponent, as the divisor register holds it.
    pub fn value(&self) -> (v: u32)
        ensures
            v == self.value_of(),
            v <= 9,
    {
        match self {
            Prescaler::Div1 => 0,
            Prescaler::Div2 => 1,
            Prescaler::Div4 => 2,
            Prescaler::Div8 => 3,
            Prescaler::Div16 => 4,
            Prescaler::Div32 => 5,
            Prescaler::Div64 => 6,
            Prescaler::Div128 => 7,
            Prescaler::Div256 => 8,
            Prescaler::Div512 => 9,
        }
    }
}

} // verus!
