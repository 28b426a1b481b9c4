//! The register writes a handle issues, and a behavioral model of the
//! registers of one timer unit that says what each write does.

use vstd::prelude::*;
use crate::rtime::bitmode::{count_limit, limit_of_code};
use crate::rtime::interrupt::{Layout, MAX_CHANNELS};

verus! {

/// One write to a register of a timer unit.
#[derive(Clone, Copy, Debug, PartialEq, Eq, Structural)]
pub enum RegisterWrite {
    /// Trigger the start task.
    TasksStart,
    /// Trigger the stop task.
    TasksStop,
    /// Trigger the count task.
    TasksCount,
    /// Trigger the clear task.
    TasksClear,
    /// Trigger the capture task of a channel.
    TasksCapture(usize),
    /// Clear the match-event flag of a channel.
    EventsCompare(usize),
    /// Write a bit set to the interrupt-enable-set register.
    IntenSet(u32),
    /// Write a bit set to the interrupt-enable-clear register.
    IntenClr(u32),
    /// Write a code to the width-select register.
    Bitmode(u32),
    /// Write a code to the mode-select register.
    Mode(u32),
    /// Write an exponent to the divisor register.
    Prescaler(u32),
    /// Write a value to the compare/capture register of a channel.
    Cc(usize, u32),
}

/// The registers of one timer unit.
#[derive(Clone, Copy, Debug, PartialEq, Eq)]
pub struct Registers {
    /// The unit's register layout.
    pub layout: Layout,
    /// Whether the unit was started and not stopped since.
    pub running: bool,
    /// The mode-select register: 0 is timer mode, anything else counter mode.
    pub mode: u32,
    /// The width-select register.
    pub bitmode: u32,
    /// The divisor register.
    pub prescaler: u32,
    /// The live counter value.
    pub counter: u32,
    /// The compare/capture registers.
    pub cc: [u32; 6],
    /// The latched match-event flags.
    pub events_compare: [bool; 6],
    /// The interrupt-enable bits.
    pub inten: u32,
}

/// The mathematical content of `Registers`.
pub struct RegisterState {
    /// The unit's register layout.
    pub layout: Layout,
    /// Whether the unit was started and not stopped since.
    pub running: bool,
    /// The mode-select register.
    pub mode: u32,
    /// The width-select register.
    pub bitmode: u32,
    /// The divisor register.
    pub prescaler: u32,
    /// The live counter value.
    pub counter: u32,
    /// The compare/capture registers, by channel.
    pub cc: Seq<u32>,
    /// The latched match-event flags, by channel.
    pub events: Seq<bool>,
    /// The interrupt-enable bits.
    pub inten: u32,
}

impl RegisterState {
    /// Both per-channel sequences have one entry for each of the six channels.
    pub open spec fn well_formed(self) -> bool {
        self.cc.len() == MAX_CHANNELS && self.events.len() == MAX_CHANNELS
    }

    /// The largest counter value under the active width.
    pub open spec fn limit(self) -> u32 {
        count_limit(self.bitmode)
    }

    /// Whether the count task advances the counter: in counter mode, while
    /// running.
    pub open spec fn counts(self) -> bool {
        self.running && self.mode != 0
    }

    /// The counter value that follows the present one: one more, or zero
    /// after the largest value of the active width.
    pub open spec fn next_count(self) -> u32 {
        if self.counter >= self.limit() {
            0
        } else {
            (self.counter + 1) as u32
        }
    }

    /// Whether a channel's comparison target matches a counter value. Only
    /// the bits of the active width are compared.
    pub open spec fn matches_target(self, channel: int, count: u32) -> bool {
        0 <= channel < self.layout.channel_count() && self.cc[channel] & self.limit() == count
    }

    /// The match-event flags once the counter has come to a value: those
    /// that were set stay set, and each channel whose target matches is set.
    pub open spec fn latched(self, count: u32) -> Seq<bool> {
        Seq::new(
            MAX_CHANNELS as nat,
            |i: int| self.events[i] || self.matches_target(i, count),
        )
    }

    /// The registers after one write. A write to a channel that the layout
    /// lacks changes nothing.
    pub open spec fn after(self, w: RegisterWrite) -> RegisterState {
        match w {
            RegisterWrite::TasksStart => RegisterState { running: true, ..self },
            RegisterWrite::TasksStop => RegisterState { running: false, ..self },
            RegisterWrite::TasksCount => if self.counts() {
                RegisterState {
                    counter: self.next_count(),
                    events: self.latched(self.next_count()),
                    ..self
                }
            } else {
                self
            },
            RegisterWrite::TasksClear => RegisterState { counter: 0, ..self },
            RegisterWrite::TasksCapture(i) => if i < self.layout.channel_count() {
                RegisterState { cc: self.cc.update(i as int, self.counter), ..self }
            } else {
                self
            },
            RegisterWrite::EventsCompare(i) => if i < self.layout.channel_count() {
                RegisterState { events: self.events.update(i as int, false), ..self }
            } else {
                self
            },
            RegisterWrite::IntenSet(bits) => RegisterState { inten: self.inten | bits, ..self },
            RegisterWrite::IntenClr(bits) => RegisterState { inten: self.inten & !bits, ..self },
            RegisterWrite::Bitmode(code) => RegisterState { bitmode: code, ..self },
            RegisterWrite::Mode(code) => RegisterState { mode: code, ..self },
            RegisterWrite::Prescaler(value) => RegisterState { prescaler: value, ..self },
            RegisterWrite::Cc(i, value) => if i < self.layout.channel_count() {
                RegisterState { cc: self.cc.update(i as int, value), ..self }
            } else {
                self
            },
        }
    }

    /// The registers after a sequence of writes, first to last.
    pub open spec fn replay(self, writes: Seq<RegisterWrite>) -> RegisterState
        decreases writes.len(),
    {
        if writes.len() == 0 {
            self
        } else {
            self.replay(writes.drop_last()).after(writes.last())
        }
    }

    /// The registers after a number of count tasks.
    pub open spec fn after_ticks(self, n: nat) -> RegisterState
        decreases n,
    {
        if n == 0 {
            self
        } else {
            self.after_ticks((n - 1) as nat).after(RegisterWrite::TasksCount)
        }
    }
}

impl View for Registers {
    type V = RegisterState;

    open spec fn view(&self) -> RegisterState {
        RegisterState {
            layout: self.layout,
            running: self.running,
            mode: self.mode,
            bitmode: self.bitmode,
            prescaler: self.prescaler,
            counter: self.counter,
            cc: self.cc@,
            events: self.events_compare@,
            inten: self.inten,
        }
    }
}

impl Registers {
    /// The registers of a unit after power-on: stopped, timer mode, 16 bit
    /// wide, everything else zero.
    pub fn new(layout: Layout) -> (r: Registers)
        ensures
            r@.layout == layout,
            !r@.running,
            r@.mode == 0,
            r@.bitmode == 0,
            r@.prescaler == 0,
            r@.counter == 0,
            r@.inten == 0,
            r@.cc == Seq::new(MAX_CHANNELS as nat, |i: int| 0u32),
            r@.events == Seq::new(MAX_CHANNELS as nat, |i: int| false),
    {
        let r = Registers {
            layout,
            running: false,
            mode: 0,
            bitmode: 0,
            prescaler: 0,
            counter: 0,
            cc: [0, 0, 0, 0, 0, 0],
            events_compare: [false, false, false, false, false, false],
            inten: 0,
        };
        assert(r@.cc =~= Seq::new(MAX_CHANNELS as nat, |i: int| 0u32));
        assert(r@.events =~= Seq::new(MAX_CHANNELS as nat, |i: int| false));
        r
    }

    /// Performs one write on the model.
    pub fn apply(&mut self, w: RegisterWrite)
        ensures
            final(self)@ == old(self)@.after(w),
    {
        let n = self.layout.channels();
        match w {
            RegisterWrite::TasksStart => {
                self.running = true;
            },
            RegisterWrite::TasksStop => {
                self.running = false;
            },
            RegisterWrite::TasksCount => {
                if self.running && self.mode != 0 {
                    let limit = limit_of_code(self.bitmode);
                    let count: u32 = if self.counter >= limit {
                        0
                    } else {
                        self.counter + 1
                    };
                    self.counter = count;
                    let mut i: usize = 0;
                    while i < n
                        invariant
                            i <= n,
                            n == self.layout.channel_count(),
                            limit == old(self)@.limit(),
                            count == old(self)@.next_count(),
                            self.counter == count,
                            self.layout == old(self).layout,
                            self.running == old(self).running,
                            self.mode == old(self).mode,
                            self.bitmode == old(self).bitmode,
                            self.prescaler == old(self).prescaler,
                            self.inten == old(self).inten,
                            self.cc == old(self).cc,
                            forall|k: int|
                                0 <= k < i ==> self.events_compare@[k] == (old(self)@.events[k]
                                    || old(self)@.matches_target(k, count)),
                            forall|k: int|
                                i <= k < MAX_CHANNELS ==> self.events_compare@[k] == old(
                                    self,
                                )@.events[k],
                        decreases n - i,
                    {
                        if self.cc[i] & limit == count {
                            self.events_compare[i] = true;
                        }
                        i += 1;
                    }
                    assert(self@.events =~= old(self)@.after(w).events);
                }
            },
            RegisterWrite::TasksClear => {
                self.counter = 0;
            },
            RegisterWrite::TasksCapture(i) => {
                if i < n {
                    self.cc[i] = self.counter;
                }
            },
            RegisterWrite::EventsCompare(i) => {
                if i < n {
                    self.events_compare[i] = false;
                }
            },
            RegisterWrite::IntenSet(bits) => {
                self.inten = self.inten | bits;
            },
            RegisterWrite::IntenClr(bits) => {
                self.inten = self.inten & !bits;
            },
            RegisterWrite::Bitmode(code) => {
                self.bitmode = code;
            },
            RegisterWrite::Mode(code) => {
                self.mode = code;
            },
            RegisterWrite::Prescaler(value) => {
                self.prescaler = value;
            },
            RegisterWrite::Cc(i, value) => {
                if i < n {
                    self.cc[i] = value;
                }
            },
        }
    }

    /// Performs a sequence of writes on the model, first to last.
    pub fn apply_all(&mut self, writes: &Vec<RegisterWrite>)
        ensures
            final(self)@ == old(self)@.replay(writes@),
    {
        let mut i: usize = 0;
        while i < writes.len()
            invariant
                i <= writes.len(),
                self@ == old(self)@.replay(writes@.take(i as int)),
            decreases writes.len() - i,
        {
            assert(writes@.take(i + 1).drop_last() =~= writes@.take(i as int));
            self.apply(writes[i]);
            i += 1;
        }
        assert(writes@.take(i as int) =~= writes@);
    }
}

} // verus!
