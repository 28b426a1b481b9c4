//! Counter bit widths and their encodings in the width-select register.

use vstd::prelude::*;

verus! {

/// A counter bit width the hardware supports.
#[derive(Clone, Copy, Debug, PartialEq, Eq, Structural)]
pub enum Width {
    /// 8 bit wide counter.
    W8,
    /// 16 bit wide counter.
    W16,
    /// 24 bit wide counter.
    W24,
    /// 32 bit wide counter.
    W32,
}

/// The largest counter value under the width that a width-select code chooses.
/// The register holds two bits; a code above 3 is read as 3.
pub open spec fn count_limit(code: u32) -> u32 {
    if code == 0 {
        0xFFFF
    } else if code == 1 {
        0xFF
    } else if code == 2 {
        0xFF_FFFF
    } else {
        0xFFFF_FFFF
    }
}

/// Computes `count_limit`.
pub fn limit_of_code(code: u32) -> (limit: u32)
    ensures
        limit == count_limit(code),
{
    if code == 0 {
        0xFFFF
    } else if code == 1 {
        0xFF
    } else if code == 2 {
        0xFF_FFFF
    } else {
        0xFFFF_FFFF
    }
}

impl Width {
    /// The width's encoding in the width-select register.
    pub open spec fn code_of(self) -> u32 {
        match self {
            Width::W16 => 0,
            Width::W8 => 1,
            Width::W24 => 2,
            Width::W32 => 3,
        }
    }

    /// The counter value that follows `count` at this width: one more, or
    /// zero after the largest value that the width holds.
    pub open spec fn successor(self, count: u32) -> u32 {
        if count >= count_limit(self.code_of()) {
            0
        } else {
            (count + 1) as u32
        }
    }

    /// The number of counter bits.
    pub open spec fn bits_of(self) -> nat {
        match self {
            Width::W8 => 8,
            Width::W16 => 16,
            Width::W24 => 24,
            Width::W32 => 32,
        }
    }

    /// The width's encoding in the width-select register.
    pub fn code(&self) -> (c: u32)
        ensures
            c == self.code_of(),
    {
        match self {
            Width::W16 => 0,
            Width::W8 => 1,
            Width::W24 => 2,
            Width::W32 => 3,
        }
    }

    /// The number of counter bits.
    pub fn bits(&self) -> (b: u32)
        ensures
            b == self.bits_of(),
    {
        match self {
            Width::W8 => 8,
            Width::W16 => 16,
            Width::W24 => 24,
            Width::W32 => 32,
        }
    }

    /// The largest value a counter of this width holds before it wraps to zero.
    pub fn max_count(&self) -> (m: u32)
        ensures
            m == count_limit(self.code_of()),
            m + 1 == vstd::arithmetic::power2::pow2(self.bits_of()),
    {
        proof {
            vstd::arithmetic::power2::lemma2_to64();
        }
        limit_of_code(self.code())
    }
}

} // verus!
