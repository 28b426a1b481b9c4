//! Compare channels, register layouts and the interrupt-enable bits.

use vstd::prelude::*;

verus! {

/// The number of compare channels of the larger register layout.
pub const MAX_CHANNELS: usize = 6;

/// The two register layouts of the timer units.
#[derive(Clone, Copy, Debug, PartialEq, Eq, Structural)]
pub enum Layout {
    /// Four compare channels.
    Basic,
    /// Six compare channels.
    Extended,
}

impl Layout {
    /// The number of compare channels.
    pub open spec fn channel_count(self) -> usize {
        match self {
            Layout::Basic => 4,
            Layout::Extended => 6,
        }
    }

    /// The interrupt-enable bits of all channels of the layout.
    pub open spec fn all_lanes(self) -> u32 {
        match self {
            Layout::Basic => 0x000F_0000,
            Layout::Extended => 0x003F_0000,
        }
    }

    /// The number of compare channels.
    pub fn channels(&self) -> (n: usize)
        ensures
            n == self.channel_count(),
            n <= MAX_CHANNELS,
    {
        match self {
            Layout::Basic => 4,
            Layout::Extended => 6,
        }
    }

    /// The interrupt-enable bits of all channels of the layout.
    pub fn all_interrupt_bits(&self) -> (m: u32)
        ensures
            m == self.all_lanes(),
    {
        match self {
            Layout::Basic => 0x000F_0000,
            Layout::Extended => 0x003F_0000,
        }
    }
}

/// The bit of a channel in the interrupt-enable registers: bit 16 for channel
/// 0, up to bit 21 for channel 5; no bit for anything else.
pub open spec fn lane_bit(channel: usize) -> u32 {
    if channel == 0 {
        0x0001_0000
    } else if channel == 1 {
        0x0002_0000
    } else if channel == 2 {
        0x0004_0000
    } else if channel == 3 {
        0x0008_0000
    } else if channel == 4 {
        0x0010_0000
    } else if channel == 5 {
        0x0020_0000
    } else {
        0
    }
}

/// Whether an interrupt-enable register value has a channel's bit set.
pub open spec fn lane_enabled(inten: u32, channel: usize) -> bool {
    inten & lane_bit(channel) != 0
}

/// Computes `lane_bit`.
pub fn interrupt_bit(channel: usize) -> (b: u32)
    ensures
        b == lane_bit(channel),
{
    if channel == 0 {
        0x0001_0000
    } else if channel == 1 {
        0x0002_0000
    } else if channel == 2 {
        0x0004_0000
    } else if channel == 3 {
        0x0008_0000
    } else if channel == 4 {
        0x0010_0000
    } else if channel == 5 {
        0x0020_0000
    } else {
        0
    }
}

/// Computes `lane_enabled`.
pub fn interrupt_bit_set(inten: u32, channel: usize) -> (r: bool)
    ensures
        r == lane_enabled(inten, channel),
{
    inten & interrupt_bit(channel) != 0
}

/// Setting a channel's bit enables that channel and touches no other.
pub proof fn lemma_set_lane(inten: u32, i: usize, j: usize)
    requires
        i < MAX_CHANNELS,
        j < MAX_CHANNELS,
    ensures
        lane_enabled(inten | lane_bit(i), j) == (i == j || lane_enabled(inten, j)),
{
    let a = lane_bit(i);
    let b = lane_bit(j);
    if i == j {
        assert((inten | a) & a != 0) by (bit_vector)
            requires
                a != 0,
        ;
    } else {
        lemma_lanes_apart(a, b);
        assert((inten | a) & b == inten & b) by (bit_vector)
            requires
                a & b == 0,
        ;
    }
}

/// Clearing a channel's bit disables that channel and touches no other.
pub proof fn lemma_clear_lane(inten: u32, i: usize, j: usize)
    requires
        i < MAX_CHANNELS,
        j < MAX_CHANNELS,
    ensures
        lane_enabled(inten & !lane_bit(i), j) == (i != j && lane_enabled(inten, j)),
{
    let a = lane_bit(i);
    let b = lane_bit(j);
    if i == j {
        assert((inten & !a) & a == 0) by (bit_vector);
    } else {
        lemma_lanes_apart(a, b);
        assert((inten & !a) & b == inten & b) by (bit_vector)
            requires
                a & b == 0,
        ;
    }
}

/// Clearing all bits of a layout disables each of its channels.
pub proof fn lemma_clear_all_lanes(inten: u32, layout: Layout, j: usize)
    requires
        j < layout.channel_count(),
    ensures
        !lane_enabled(inten & !layout.all_lanes(), j),
{
    let m = layout.all_lanes();
    let b = lane_bit(j);
    assert(m & b == b) by (bit_vector)
        requires
            m == 0x000F_0000u32 || m == 0x003F_0000u32,
            b == 0x0001_0000u32 || b == 0x0002_0000u32 || b == 0x0004_0000u32 || b
                == 0x0008_0000u32 || (m == 0x003F_0000u32 && (b == 0x0010_0000u32 || b
                == 0x0020_0000u32)),
    ;
    assert((inten & !m) & b == 0) by (bit_vector)
        requires
            m & b == b,
    ;
}

proof fn lemma_lanes_apart(a: u32, b: u32)
    requires
        a == 0x0001_0000u32 || a == 0x0002_0000u32 || a == 0x0004_0000u32 || a == 0x0008_0000u32
            || a == 0x0010_0000u32 || a == 0x0020_0000u32,
        b == 0x0001_0000u32 || b == 0x0002_0000u32 || b == 0x0004_0000u32 || b == 0x0008_0000u32
            || b == 0x0010_0000u32 || b == 0x0020_0000u32,
        a != b,
    ensures
        a & b == 0,
{
    assert(a & b == 0) by (bit_vector)
        requires
            a == 0x0001_0000u32 || a == 0x0002_0000u32 || a == 0x0004_0000u32 || a
                == 0x0008_0000u32 || a == 0x0010_0000u32 || a == 0x0020_0000u32,
            b == 0x0001_0000u32 || b == 0x0002_0000u32 || b == 0x0004_0000u32 || b
                == 0x0008_0000u32 || b == 0x0010_0000u32 || b == 0x0020_0000u32,
            a != b,
    ;
}

} // verus!
