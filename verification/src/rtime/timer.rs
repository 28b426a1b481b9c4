//! The handle of one timer unit: a record of the unit's state, the
//! transitions that are legal in each state, and the register write that
//! each transition issues.

use vstd::prelude::*;
use crate::rtime::bitmode::Width;
use crate::rtime::interrupt::{
    interrupt_bit,
    interrupt_bit_set,
    lane_bit,
    lane_enabled,
    Layout,
    MAX_CHANNELS,
};
use crate::rtime::laws::{lemma_construction_canonical, lemma_step_keeps_fidelity};
use crate::rtime::mode::{Counter as CounterMode, Mode, Timer as TimerMode};
use crate::rtime::prescaler::Prescaler;
use crate::rtime::registers::{RegisterState, RegisterWrite, Registers};
use crate::rtime::state::RunState;

verus! {

/// Why a transition was refused.
#[derive(Clone, Copy, Debug, PartialEq, Eq, Structural)]
pub enum StateError {
    /// The transition needs a stopped unit and the unit is started.
    NotStopped,
    /// The transition needs a started unit and the unit is stopped.
    NotStarted,
    /// The transition needs timer mode and the unit is in counter mode.
    NotTimerMode,
    /// The transition needs counter mode and the unit is in timer mode.
    NotCounterMode,
    /// The channel's interrupt is enabled already.
    AlreadyEnabled,
    /// The channel's interrupt is disabled already.
    AlreadyDisabled,
    /// The unit's register layout has no such channel.
    NoSuchChannel,
}

/// A transition of a handle.
#[derive(Clone, Copy, Debug, PartialEq, Eq, Structural)]
pub enum Transition {
    /// Choose the counter width; needs a stopped unit.
    SetCounterwidth(Width),
    /// Start the unit; needs a stopped unit.
    Start,
    /// Choose the clock divisor; needs timer mode and a stopped unit.
    SetPrescale(Prescaler),
    /// Stop the unit; needs a started unit.
    Stop,
    /// Advance the counter by one; needs counter mode and a started unit.
    Tick,
    /// Zero the counter.
    Reset,
    /// Enable a channel's interrupt; the interrupt must be disabled.
    EnableInterrupt(usize),
    /// Disable a channel's interrupt; the interrupt must be enabled.
    DisableInterrupt(usize),
    /// Clear a channel's latched match event.
    UnpendInterrupt(usize),
    /// Program a channel's comparison target.
    CompareAgainst(usize, u32),
    /// Latch the counter into a channel's compare/capture register.
    Capture(usize),
}

/// The mathematical content of a handle.
pub struct TimerState {
    /// The register layout of the unit.
    pub layout: Layout,
    /// The counter width.
    pub width: Width,
    /// The operating mode, with the divisor in timer mode.
    pub mode: Mode,
    /// The run state.
    pub run: RunState,
    /// For each channel, whether its interrupt is enabled.
    pub enabled: Seq<bool>,
}

impl TimerState {
    /// There is one interrupt state for each of the six channels, and the
    /// channels that the layout lacks are disabled.
    pub open spec fn well_formed(self) -> bool {
        &&& self.enabled.len() == MAX_CHANNELS
        &&& forall|i: int| self.layout.channel_count() <= i < MAX_CHANNELS ==> !self.enabled[i]
    }

    /// The state that both constructors establish: stopped, 32 bit wide,
    /// every interrupt disabled.
    pub open spec fn baseline(layout: Layout, mode: Mode) -> TimerState {
        TimerState {
            layout,
            width: Width::W32,
            mode,
            run: RunState::Stopped,
            enabled: Seq::new(MAX_CHANNELS as nat, |i: int| false),
        }
    }

    /// A write carries the agreement of handle and registers over: whatever
    /// registers hold this state, after the write they hold the next.
    pub open spec fn kept_by(self, w: RegisterWrite, next: TimerState) -> bool {
        forall|regs: RegisterState|
            regs.well_formed() && #[trigger] self.matches(regs) ==> next.matches(regs.after(w))
    }

    /// The registers hold this state and no match event of the layout is
    /// pending.
    pub open spec fn matches_unpended(self, regs: RegisterState) -> bool {
        &&& self.matches(regs)
        &&& forall|i: int| 0 <= i < self.layout.channel_count() ==> !regs.events[i]
    }

    /// The reason for which a transition is refused in this state, if it is.
    /// A mode that does not fit is reported before a run state that does
    /// not, and a missing channel before the channel's interrupt state.
    pub open spec fn refusal(self, t: Transition) -> Option<StateError> {
        match t {
            Transition::SetCounterwidth(_) | Transition::Start => if self.run
                == RunState::Started {
                Some(StateError::NotStopped)
            } else {
                None
            },
            Transition::SetPrescale(_) => if self.mode is Counter {
                Some(StateError::NotTimerMode)
            } else if self.run == RunState::Started {
                Some(StateError::NotStopped)
            } else {
                None
            },
            Transition::Stop => if self.run == RunState::Stopped {
                Some(StateError::NotStarted)
            } else {
                None
            },
            Transition::Tick => if self.mode is Timer {
                Some(StateError::NotCounterMode)
            } else if self.run == RunState::Stopped {
                Some(StateError::NotStarted)
            } else {
                None
            },
            Transition::Reset => None,
            Transition::EnableInterrupt(i) => if i >= self.layout.channel_count() {
                Some(StateError::NoSuchChannel)
            } else if self.enabled[i as int] {
                Some(StateError::AlreadyEnabled)
            } else {
                None
            },
            Transition::DisableInterrupt(i) => if i >= self.layout.channel_count() {
                Some(StateError::NoSuchChannel)
            } else if !self.enabled[i as int] {
                Some(StateError::AlreadyDisabled)
            } else {
                None
            },
            Transition::UnpendInterrupt(i)
            | Transition::CompareAgainst(i, _)
            | Transition::Capture(i) => if i >= self.layout.channel_count() {
                Some(StateError::NoSuchChannel)
            } else {
                None
            },
        }
    }

    /// The state after a transition that is not refused.
    pub open spec fn next(self, t: Transition) -> TimerState {
        match t {
            Transition::SetCounterwidth(w) => TimerState { width: w, ..self },
            Transition::Start => TimerState { run: RunState::Started, ..self },
            Transition::SetPrescale(p) => TimerState {
                mode: Mode::Timer(TimerMode { prescaler: p }),
                ..self
            },
            Transition::Stop => TimerState { run: RunState::Stopped, ..self },
            Transition::EnableInterrupt(i) => TimerState {
                enabled: self.enabled.update(i as int, true),
                ..self
            },
            Transition::DisableInterrupt(i) => TimerState {
                enabled: self.enabled.update(i as int, false),
                ..self
            },
            Transition::Tick
            | Transition::Reset
            | Transition::UnpendInterrupt(_)
            | Transition::CompareAgainst(_, _)
            | Transition::Capture(_) => self,
        }
    }

    /// The register write that a transition issues.
    pub open spec fn write_of(t: Transition) -> RegisterWrite {
        match t {
            Transition::SetCounterwidth(w) => RegisterWrite::Bitmode(w.code_of()),
            Transition::Start => RegisterWrite::TasksStart,
            Transition::SetPrescale(p) => RegisterWrite::Prescaler(p.value_of()),
            Transition::Stop => RegisterWrite::TasksStop,
            Transition::Tick => RegisterWrite::TasksCount,
            Transition::Reset => RegisterWrite::TasksClear,
            Transition::EnableInterrupt(i) => RegisterWrite::IntenSet(lane_bit(i)),
            Transition::DisableInterrupt(i) => RegisterWrite::IntenClr(lane_bit(i)),
            Transition::UnpendInterrupt(i) => RegisterWrite::EventsCompare(i),
            Transition::CompareAgainst(i, v) => RegisterWrite::Cc(i, v),
            Transition::Capture(i) => RegisterWrite::TasksCapture(i),
        }
    }

    /// The state after a sequence of transitions, first to last. A refused
    /// transition leaves the state as it is.
    pub open spec fn run_all(self, ts: Seq<Transition>) -> TimerState
        decreases ts.len(),
    {
        if ts.len() == 0 {
            self
        } else {
            let before = self.run_all(ts.drop_last());
            if before.refusal(ts.last()) is None {
                before.next(ts.last())
            } else {
                before
            }
        }
    }

    /// The register writes that a sequence of transitions issues, in order.
    /// A refused transition issues none.
    pub open spec fn trace(self, ts: Seq<Transition>) -> Seq<RegisterWrite>
        decreases ts.len(),
    {
        if ts.len() == 0 {
            Seq::empty()
        } else {
            let before = self.run_all(ts.drop_last());
            if before.refusal(ts.last()) is None {
                self.trace(ts.drop_last()).push(Self::write_of(ts.last()))
            } else {
                self.trace(ts.drop_last())
            }
        }
    }

    /// The recorded state is what the registers hold: layout, run state,
    /// width code, mode code, the divisor in timer mode, and the
    /// interrupt-enable bit of each channel.
    pub open spec fn matches(self, regs: RegisterState) -> bool {
        &&& regs.layout == self.layout
        &&& regs.running == (self.run == RunState::Started)
        &&& regs.bitmode == self.width.code_of()
        &&& regs.mode == self.mode.code_of()
        &&& match self.mode {
            Mode::Timer(t) => regs.prescaler == t.prescaler.value_of(),
            Mode::Counter(_) => true,
        }
        &&& forall|i: usize|
            i < self.layout.channel_count() ==> #[trigger] lane_enabled(regs.inten, i)
                == self.enabled[i as int]
    }
}

/// The register writes that bring a unit from any state to the baseline:
/// stop, select 32 bit, disable all interrupts in one write, clear each
/// channel's match event, select the mode and, in timer mode, divisor 0.
pub open spec fn init_writes(layout: Layout, mode: Mode) -> Seq<RegisterWrite> {
    let common = seq![
        RegisterWrite::TasksStop,
        RegisterWrite::Bitmode(Width::W32.code_of()),
        RegisterWrite::IntenClr(layout.all_lanes()),
        RegisterWrite::EventsCompare(0),
        RegisterWrite::EventsCompare(1),
        RegisterWrite::EventsCompare(2),
        RegisterWrite::EventsCompare(3),
    ];
    let unpended = match layout {
        Layout::Basic => common,
        Layout::Extended => common.push(RegisterWrite::EventsCompare(4)).push(
            RegisterWrite::EventsCompare(5),
        ),
    };
    match mode {
        Mode::Counter(_) => unpended.push(RegisterWrite::Mode(mode.code_of())),
        Mode::Timer(t) => unpended.push(RegisterWrite::Mode(mode.code_of())).push(
            RegisterWrite::Prescaler(t.prescaler.value_of()),
        ),
    }
}

/// The handle of one timer unit. There is one handle for a unit: it cannot
/// be copied.
#[derive(Debug)]
pub struct Timer {
    layout: Layout,
    width: Width,
    mode: Mode,
    run: RunState,
    enabled: [bool; 6],
}

impl View for Timer {
    type V = TimerState;

    closed spec fn view(&self) -> TimerState {
        TimerState {
            layout: self.layout,
            width: self.width,
            mode: self.mode,
            run: self.run,
            enabled: self.enabled@,
        }
    }
}

/// Builds `init_writes`.
fn baseline_writes(layout: Layout, mode: Mode) -> (writes: Vec<RegisterWrite>)
    ensures
        writes@ == init_writes(layout, mode),
{
    let mut writes: Vec<RegisterWrite> = Vec::new();
    writes.push(RegisterWrite::TasksStop);
    writes.push(RegisterWrite::Bitmode(Width::W32.code()));
    writes.push(RegisterWrite::IntenClr(layout.all_interrupt_bits()));
    let n = layout.channels();
    let mut i: usize = 0;
    while i < n
        invariant
            i <= n,
            n == layout.channel_count(),
            writes@.len() == 3 + i,
            writes@[0] == RegisterWrite::TasksStop,
            writes@[1] == RegisterWrite::Bitmode(Width::W32.code_of()),
            writes@[2] == RegisterWrite::IntenClr(layout.all_lanes()),
            forall|k: int|
                3 <= k < 3 + i ==> #[trigger] writes@[k] == RegisterWrite::EventsCompare(
                    (k - 3) as usize,
                ),
        decreases n - i,
    {
        writes.push(RegisterWrite::EventsCompare(i));
        i += 1;
    }
    writes.push(RegisterWrite::Mode(mode.code()));
    match mode {
        Mode::Timer(t) => {
            writes.push(RegisterWrite::Prescaler(t.prescaler.value()));
        },
        Mode::Counter(_) => {},
    }
    assert(writes@ =~= init_writes(layout, mode));
    writes
}

impl Timer {
    #[verifier::type_invariant]
    spec fn valid(&self) -> bool {
        self@.well_formed()
    }

    /// Builds a handle at the baseline of a mode, and the writes that bring
    /// a unit there.
    fn at_baseline(layout: Layout, mode: Mode) -> (r: (Timer, Vec<RegisterWrite>))
        ensures
            r.0@.well_formed(),
            r.0@ == TimerState::baseline(layout, mode),
            r.1@ == init_writes(layout, mode),
            forall|regs: RegisterState|
                regs.well_formed() && regs.layout == layout ==> r.0@.matches_unpended(
                    #[trigger] regs.replay(r.1@),
                ),
    {
        proof {
            assert forall|regs: RegisterState|
                regs.well_formed() && regs.layout == layout implies TimerState::baseline(
                layout,
                mode,
            ).matches_unpended(#[trigger] regs.replay(init_writes(layout, mode))) by {
                lemma_construction_canonical(regs, mode);
            }
        }
        let t = Timer {
            layout,
            width: Width::W32,
            mode,
            run: RunState::Stopped,
            enabled: [false, false, false, false, false, false],
        };
        assert(t@.enabled =~= TimerState::baseline(layout, mode).enabled);
        (t, baseline_writes(layout, mode))
    }

    /// Turns a unit into a timer. The handle is at the baseline in timer
    /// mode with divisor 0: stopped, 32 bit wide, every interrupt disabled.
    /// The writes bring the unit there whatever its registers hold, and
    /// leave no match event pending.
    pub fn timer(layout: Layout) -> (r: (Timer, Vec<RegisterWrite>))
        ensures
            r.0@.well_formed(),
            r.0@ == TimerState::baseline(
                layout,
                Mode::Timer(TimerMode { prescaler: Prescaler::Div1 }),
            ),
            r.1@ == init_writes(layout, Mode::Timer(TimerMode { prescaler: Prescaler::Div1 })),
            forall|regs: RegisterState|
                regs.well_formed() && regs.layout == layout ==> r.0@.matches_unpended(
                    #[trigger] regs.replay(r.1@),
                ),
    {
        Timer::at_baseline(layout, Mode::Timer(TimerMode { prescaler: Prescaler::Div1 }))
    }

    /// Turns a unit into a counter. The handle is at the baseline in
    /// counter mode: stopped, 32 bit wide, every interrupt disabled. The
    /// writes bring the unit there whatever its registers hold, and leave
    /// no match event pending.
    pub fn counter(layout: Layout) -> (r: (Timer, Vec<RegisterWrite>))
        ensures
            r.0@.well_formed(),
            r.0@ == TimerState::baseline(layout, Mode::Counter(CounterMode)),
            r.1@ == init_writes(layout, Mode::Counter(CounterMode)),
            forall|regs: RegisterState|
                regs.well_formed() && regs.layout == layout ==> r.0@.matches_unpended(
                    #[trigger] regs.replay(r.1@),
                ),
    {
        Timer::at_baseline(layout, Mode::Counter(CounterMode))
    }

    /// The unit's register layout. The state of a handle is well formed,
    /// always.
    pub fn layout(&self) -> (l: Layout)
        ensures
            l == self@.layout,
            self@.well_formed(),
    {
        proof {
            use_type_invariant(self);
        }
        self.layout
    }

    /// The recorded counter width.
    pub fn width(&self) -> (w: Width)
        ensures
            w == self@.width,
    {
        self.width
    }

    /// The recorded operating mode.
    pub fn mode(&self) -> (m: Mode)
        ensures
            m == self@.mode,
    {
        self.mode
    }

    /// The recorded run state.
    pub fn run_state(&self) -> (s: RunState)
        ensures
            s == self@.run,
    {
        self.run
    }

    /// Whether a channel's interrupt is recorded as enabled. A channel that
    /// the layout lacks is not.
    pub fn interrupt_enabled(&self, channel: usize) -> (e: bool)
        ensures
            e == (channel < self@.layout.channel_count() && self@.enabled[channel as int]),
    {
        channel < self.layout.channels() && self.enabled[channel]
    }

    /// Whether the recorded state is what the registers hold.
    pub fn agrees_with(&self, regs: &Registers) -> (r: bool)
        ensures
            r == self@.matches(regs@),
    {
        let divisor_agrees = match self.mode {
            Mode::Timer(t) => regs.prescaler == t.prescaler.value(),
            Mode::Counter(_) => true,
        };
        if !(regs.layout == self.layout && regs.running == self.run.is_started() && regs.bitmode
            == self.width.code() && regs.mode == self.mode.code() && divisor_agrees) {
            return false;
        }
        let n = self.layout.channels();
        let mut i: usize = 0;
        while i < n
            invariant
                i <= n,
                n == self@.layout.channel_count(),
                forall|k: usize|
                    k < i ==> #[trigger] lane_enabled(regs@.inten, k) == self@.enabled[k as int],
            decreases n - i,
        {
            if interrupt_bit_set(regs.inten, i) != self.enabled[i] {
                assert(lane_enabled(regs@.inten, i as usize) != self@.enabled[i as int]);
                return false;
            }
            i += 1;
        }
        true
    }

    /// Chooses the counter width. Needs a stopped unit. The write keeps
    /// handle and registers in agreement.
    pub fn set_counterwidth(&mut self, width: Width) -> (r: Result<RegisterWrite, StateError>)
        ensures
            final(self)@.well_formed(),
            r is Ok <==> old(self)@.run == RunState::Stopped,
            match r {
                Ok(w) => {
                    &&& w == RegisterWrite::Bitmode(width.code_of())
                    &&& final(self)@ == (TimerState { width, ..old(self)@ })
                    &&& old(self)@.kept_by(w, final(self)@)
                },
                Err(e) => e == StateError::NotStopped && final(self)@ == old(self)@,
            },
    {
        self.step(Transition::SetCounterwidth(width))
    }

    /// Starts the unit. Needs a stopped unit. The write keeps handle and
    /// registers in agreement.
    pub fn start(&mut self) -> (r: Result<RegisterWrite, StateError>)
        ensures
            final(self)@.well_formed(),
            r is Ok <==> old(self)@.run == RunState::Stopped,
            match r {
                Ok(w) => {
                    &&& w == RegisterWrite::TasksStart
                    &&& final(self)@ == (TimerState { run: RunState::Started, ..old(self)@ })
                    &&& old(self)@.kept_by(w, final(self)@)
                },
                Err(e) => e == StateError::NotStopped && final(self)@ == old(self)@,
            },
    {
        self.step(Transition::Start)
    }

    /// Chooses the clock divisor. Needs timer mode and a stopped unit; the
    /// mode is looked at first. The write keeps handle and registers in
    /// agreement.
    pub fn set_prescale(&mut self, prescaler: Prescaler) -> (r: Result<RegisterWrite, StateError>)
        ensures
            final(self)@.well_formed(),
            r is Ok <==> old(self)@.mode is Timer && old(self)@.run == RunState::Stopped,
            match r {
                Ok(w) => {
                    &&& w == RegisterWrite::Prescaler(prescaler.value_of())
                    &&& final(self)@ == (TimerState {
                        mode: Mode::Timer(TimerMode { prescaler }),
                        ..old(self)@
                    })
                    &&& old(self)@.kept_by(w, final(self)@)
                },
                Err(e) => {
                    &&& final(self)@ == old(self)@
                    &&& e == if old(self)@.mode is Counter {
                        StateError::NotTimerMode
                    } else {
                        StateError::NotStopped
                    }
                },
            },
    {
        self.step(Transition::SetPrescale(prescaler))
    }

    /// Stops the unit. Needs a started unit. The write keeps handle and
    /// registers in agreement.
    pub fn stop(&mut self) -> (r: Result<RegisterWrite, StateError>)
        ensures
            final(self)@.well_formed(),
            r is Ok <==> old(self)@.run == RunState::Started,
            match r {
                Ok(w) => {
                    &&& w == RegisterWrite::TasksStop
                    &&& final(self)@ == (TimerState { run: RunState::Stopped, ..old(self)@ })
                    &&& old(self)@.kept_by(w, final(self)@)
                },
                Err(e) => e == StateError::NotStarted && final(self)@ == old(self)@,
            },
    {
        self.step(Transition::Stop)
    }

    /// Advances the counter by one; at the largest value of the active
    /// width the counter goes to zero. Each channel whose comparison
    /// target, in the bits of the active width, is the new value gets its
    /// match event. Needs counter mode and a started unit; the mode is
    /// looked at first. The recorded state stays.
    pub fn tick(&mut self) -> (r: Result<RegisterWrite, StateError>)
        ensures
            final(self)@.well_formed(),
            final(self)@ == old(self)@,
            r is Ok <==> old(self)@.mode is Counter && old(self)@.run == RunState::Started,
            match r {
                Ok(w) => {
                    &&& w == RegisterWrite::TasksCount
                    &&& old(self)@.kept_by(w, final(self)@)
                    &&& forall|regs: RegisterState|
                        regs.well_formed() && #[trigger] old(self)@.matches(regs)
                            ==> regs.after(w) == (RegisterState {
                            counter: old(self)@.width.successor(regs.counter),
                            events: regs.latched(old(self)@.width.successor(regs.counter)),
                            ..regs
                        })
                },
                Err(e) => e == if old(self)@.mode is Timer {
                    StateError::NotCounterMode
                } else {
                    StateError::NotStarted
                },
            },
    {
        self.step(Transition::Tick)
    }

    /// Zeroes the counter, in any state. The recorded state stays, and so
    /// does every register but the counter.
    pub fn reset(&mut self) -> (w: RegisterWrite)
        ensures
            final(self)@.well_formed(),
            final(self)@ == old(self)@,
            w == RegisterWrite::TasksClear,
            old(self)@.kept_by(w, final(self)@),
            forall|regs: RegisterState|
                #[trigger] regs.after(w) == (RegisterState { counter: 0, ..regs }),
    {
        proof {
            use_type_invariant(&*self);
        }
        RegisterWrite::TasksClear
    }

    /// Enables a channel's interrupt. Needs a channel of the layout whose
    /// interrupt is disabled; the other channels stay as they are. The
    /// write keeps handle and registers in agreement.
    pub fn enable_interrupt(&mut self, channel: usize) -> (r: Result<RegisterWrite, StateError>)
        ensures
            final(self)@.well_formed(),
            r is Ok <==> {
                &&& channel < old(self)@.layout.channel_count()
                &&& !old(self)@.enabled[channel as int]
            },
            match r {
                Ok(w) => {
                    &&& w == RegisterWrite::IntenSet(lane_bit(channel))
                    &&& final(self)@ == (TimerState {
                        enabled: old(self)@.enabled.update(channel as int, true),
                        ..old(self)@
                    })
                    &&& old(self)@.kept_by(w, final(self)@)
                },
                Err(e) => {
                    &&& final(self)@ == old(self)@
                    &&& e == if channel >= old(self)@.layout.channel_count() {
                        StateError::NoSuchChannel
                    } else {
                        StateError::AlreadyEnabled
                    }
                },
            },
    {
        self.step(Transition::EnableInterrupt(channel))
    }

    /// Disables a channel's interrupt. Needs a channel of the layout whose
    /// interrupt is enabled; the other channels stay as they are. The
    /// write keeps handle and registers in agreement.
    pub fn disable_interrupt(&mut self, channel: usize) -> (r: Result<RegisterWrite, StateError>)
        ensures
            final(self)@.well_formed(),
            r is Ok <==> {
                &&& channel < old(self)@.layout.channel_count()
                &&& old(self)@.enabled[channel as int]
            },
            match r {
                Ok(w) => {
                    &&& w == RegisterWrite::IntenClr(lane_bit(channel))
                    &&& final(self)@ == (TimerState {
                        enabled: old(self)@.enabled.update(channel as int, false),
                        ..old(self)@
                    })
                    &&& old(self)@.kept_by(w, final(self)@)
                },
                Err(e) => {
                    &&& final(self)@ == old(self)@
                    &&& e == if channel >= old(self)@.layout.channel_count() {
                        StateError::NoSuchChannel
                    } else {
                        StateError::AlreadyDisabled
                    }
                },
            },
    {
        self.step(Transition::DisableInterrupt(channel))
    }

    /// Clears a channel's latched match event, whatever the channel's
    /// interrupt state and the run state. Needs a channel of the layout.
    /// The recorded state stays.
    pub fn unpend_interrupt(&mut self, channel: usize) -> (r: Result<RegisterWrite, StateError>)
        ensures
            final(self)@.well_formed(),
            final(self)@ == old(self)@,
            r is Ok <==> channel < old(self)@.layout.channel_count(),
            match r {
                Ok(w) => {
                    &&& w == RegisterWrite::EventsCompare(channel)
                    &&& old(self)@.kept_by(w, final(self)@)
                    &&& forall|regs: RegisterState|
                        regs.well_formed() && #[trigger] old(self)@.matches(regs)
                            ==> regs.after(w) == (RegisterState {
                            events: regs.events.update(channel as int, false),
                            ..regs
                        })
                },
                Err(e) => e == StateError::NoSuchChannel,
            },
    {
        self.step(Transition::UnpendInterrupt(channel))
    }

    /// Programs a channel's comparison target, whatever the channel's
    /// interrupt state and the run state. Any value is taken: the hardware
    /// compares the bits of the active width and ignores the rest. Needs a
    /// channel of the layout. The recorded state stays.
    pub fn compare_against(&mut self, channel: usize, val: u32) -> (r: Result<
        RegisterWrite,
        StateError,
    >)
        ensures
            final(self)@.well_formed(),
            final(self)@ == old(self)@,
            r is Ok <==> channel < old(self)@.layout.channel_count(),
            match r {
                Ok(w) => {
                    &&& w == RegisterWrite::Cc(channel, val)
                    &&& old(self)@.kept_by(w, final(self)@)
                    &&& forall|regs: RegisterState|
                        regs.well_formed() && #[trigger] old(self)@.matches(regs)
                            ==> regs.after(w) == (RegisterState {
                            cc: regs.cc.update(channel as int, val),
                            ..regs
                        })
                },
                Err(e) => e == StateError::NoSuchChannel,
            },
    {
        self.step(Transition::CompareAgainst(channel, val))
    }

    /// Latches the counter into a channel's compare/capture register,
    /// whatever the channel's interrupt state and the run state. Needs a
    /// channel of the layout. The recorded state stays.
    pub fn capture(&mut self, channel: usize) -> (r: Result<RegisterWrite, StateError>)
        ensures
            final(self)@.well_formed(),
            final(self)@ == old(self)@,
            r is Ok <==> channel < old(self)@.layout.channel_count(),
            match r {
                Ok(w) => {
                    &&& w == RegisterWrite::TasksCapture(channel)
                    &&& old(self)@.kept_by(w, final(self)@)
                    &&& forall|regs: RegisterState|
                        regs.well_formed() && #[trigger] old(self)@.matches(regs)
                            ==> regs.after(w) == (RegisterState {
                            cc: regs.cc.update(channel as int, regs.counter),
                            ..regs
                        })
                },
                Err(e) => e == StateError::NoSuchChannel,
            },
    {
        self.step(Transition::Capture(channel))
    }

    /// Performs a transition. Where the state allows it, the handle moves
    /// to the next state and the write to issue is returned; where not, the
    /// reason is returned, the handle stays as it is and nothing is to be
    /// written.
    pub fn step(&mut self, t: Transition) -> (r: Result<RegisterWrite, StateError>)
        ensures
            final(self)@.well_formed(),
            match r {
                Ok(w) => {
                    &&& old(self)@.refusal(t) is None
                    &&& w == TimerState::write_of(t)
                    &&& final(self)@ == old(self)@.next(t)
                    &&& old(self)@.kept_by(w, final(self)@)
                },
                Err(e) => old(self)@.refusal(t) == Some(e) && final(self)@ == old(self)@,
            },
    {
        proof {
            use_type_invariant(&*self);
        }
        let r = self.advance(t);
        proof {
            if r is Ok {
                assert forall|regs: RegisterState|
                    regs.well_formed() && #[trigger] old(self)@.matches(regs) implies self@.matches(
                    regs.after(TimerState::write_of(t)),
                ) by {
                    lemma_step_keeps_fidelity(old(self)@, regs, t);
                }
            }
        }
        r
    }

    /// Decides on a transition and records its outcome.
    fn advance(&mut self, t: Transition) -> (r: Result<RegisterWrite, StateError>)
        ensures
            final(self)@.well_formed(),
            match r {
                Ok(w) => old(self)@.refusal(t) is None && w == TimerState::write_of(t)
                    && final(self)@ == old(self)@.next(t),
                Err(e) => old(self)@.refusal(t) == Some(e) && final(self)@ == old(self)@,
            },
    {
        proof {
            use_type_invariant(&*self);
        }
        let n = self.layout.channels();
        match t {
            Transition::SetCounterwidth(w) => {
                if self.run.is_started() {
                    return Err(StateError::NotStopped);
                }
                self.width = w;
                Ok(RegisterWrite::Bitmode(w.code()))
            },
            Transition::Start => {
                if self.run.is_started() {
                    return Err(StateError::NotStopped);
                }
                self.run = RunState::Started;
                Ok(RegisterWrite::TasksStart)
            },
            Transition::SetPrescale(p) => {
                if self.mode.is_counter() {
                    return Err(StateError::NotTimerMode);
                }
                if self.run.is_started() {
                    return Err(StateError::NotStopped);
                }
                self.mode = Mode::Timer(TimerMode { prescaler: p });
                Ok(RegisterWrite::Prescaler(p.value()))
            },
            Transition::Stop => {
                if !self.run.is_started() {
                    return Err(StateError::NotStarted);
                }
                self.run = RunState::Stopped;
                Ok(RegisterWrite::TasksStop)
            },
            Transition::Tick => {
                if !self.mode.is_counter() {
                    return Err(StateError::NotCounterMode);
                }
                if !self.run.is_started() {
                    return Err(StateError::NotStarted);
                }
                Ok(RegisterWrite::TasksCount)
            },
            Transition::Reset => Ok(RegisterWrite::TasksClear),
            Transition::EnableInterrupt(i) => {
                if i >= n {
                    return Err(StateError::NoSuchChannel);
                }
                if self.enabled[i] {
                    return Err(StateError::AlreadyEnabled);
                }
                self.enabled[i] = true;
                Ok(RegisterWrite::IntenSet(interrupt_bit(i)))
            },
            Transition::DisableInterrupt(i) => {
                if i >= n {
                    return Err(StateError::NoSuchChannel);
                }
                if !self.enabled[i] {
                    return Err(StateError::AlreadyDisabled);
                }
                self.enabled[i] = false;
                Ok(RegisterWrite::IntenClr(interrupt_bit(i)))
            },
            Transition::UnpendInterrupt(i) => {
                if i >= n {
                    return Err(StateError::NoSuchChannel);
                }
                Ok(RegisterWrite::EventsCompare(i))
            },
            Transition::CompareAgainst(i, v) => {
                if i >= n {
                    return Err(StateError::NoSuchChannel);
                }
                Ok(RegisterWrite::Cc(i, v))
            },
            Transition::Capture(i) => {
                if i >= n {
                    return Err(StateError::NoSuchChannel);
                }
                Ok(RegisterWrite::TasksCapture(i))
            },
        }
    }
}

} // verus!
