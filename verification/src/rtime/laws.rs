//! What holds of handles and registers together, whatever the sequence of
//! transitions.

use vstd::prelude::*;
use crate::rtime::bitmode::Width;
use crate::rtime::interrupt::{
    lane_enabled,
    lemma_clear_all_lanes,
    lemma_clear_lane,
    lemma_set_lane,
    Layout,
    MAX_CHANNELS,
};
use crate::rtime::mode::Mode;
use crate::rtime::prescaler::Prescaler;
use crate::rtime::registers::{RegisterState, RegisterWrite};
use crate::rtime::state::RunState;
use crate::rtime::timer::{init_writes, StateError, TimerState, Transition};

verus! {

/// Replaying a sequence and then one more write is replaying the longer
/// sequence.
pub proof fn lemma_replay_push(regs: RegisterState, writes: Seq<RegisterWrite>, w: RegisterWrite)
    ensures
        regs.replay(writes.push(w)) == regs.replay(writes).after(w),
{
    assert(writes.push(w).drop_last() =~= writes);
}

/// A write changes neither the layout nor the number of per-channel
/// registers.
pub proof fn lemma_after_keeps_shape(regs: RegisterState, w: RegisterWrite)
    requires
        regs.well_formed(),
    ensures
        regs.after(w).well_formed(),
        regs.after(w).layout == regs.layout,
{
}

/// A sequence of writes changes neither the layout nor the number of
/// per-channel registers.
pub proof fn lemma_replay_keeps_shape(regs: RegisterState, writes: Seq<RegisterWrite>)
    requires
        regs.well_formed(),
    ensures
        regs.replay(writes).well_formed(),
        regs.replay(writes).layout == regs.layout,
    decreases writes.len(),
{
    if writes.len() > 0 {
        lemma_replay_keeps_shape(regs, writes.drop_last());
        lemma_after_keeps_shape(regs.replay(writes.drop_last()), writes.last());
    }
}

/// One accepted transition keeps handle and registers in agreement: where
/// the recorded state is what the registers hold, the next state is what
/// the registers hold after the transition's write.
pub proof fn lemma_step_keeps_fidelity(s: TimerState, regs: RegisterState, t: Transition)
    requires
        s.well_formed(),
        regs.well_formed(),
        s.matches(regs),
        s.refusal(t) is None,
    ensures
        s.next(t).well_formed(),
        regs.after(TimerState::write_of(t)).well_formed(),
        s.next(t).matches(regs.after(TimerState::write_of(t))),
{
    let s2 = s.next(t);
    let r2 = regs.after(TimerState::write_of(t));
    match t {
        Transition::EnableInterrupt(i) => {
            assert forall|j: usize| j < s.layout.channel_count() implies #[trigger] lane_enabled(
                r2.inten,
                j,
            ) == s2.enabled[j as int] by {
                lemma_set_lane(regs.inten, i, j);
            }
        },
        Transition::DisableInterrupt(i) => {
            assert forall|j: usize| j < s.layout.channel_count() implies #[trigger] lane_enabled(
                r2.inten,
                j,
            ) == s2.enabled[j as int] by {
                lemma_clear_lane(regs.inten, i, j);
            }
        },
        _ => {},
    }
}

/// State fidelity. From a handle whose recorded state is what the registers
/// hold, after any sequence of transitions the recorded state is what the
/// registers hold after the writes that the sequence issued.
pub proof fn lemma_state_fidelity(s: TimerState, regs: RegisterState, ts: Seq<Transition>)
    requires
        s.well_formed(),
        regs.well_formed(),
        s.matches(regs),
    ensures
        s.run_all(ts).well_formed(),
        regs.replay(s.trace(ts)).well_formed(),
        s.run_all(ts).matches(regs.replay(s.trace(ts))),
    decreases ts.len(),
{
    if ts.len() > 0 {
        let before = s.run_all(ts.drop_last());
        let writes = s.trace(ts.drop_last());
        lemma_state_fidelity(s, regs, ts.drop_last());
        if before.refusal(ts.last()) is None {
            lemma_step_keeps_fidelity(before, regs.replay(writes), ts.last());
            lemma_replay_push(regs, writes, TimerState::write_of(ts.last()));
        }
    }
}

/// Construction canonicalizes. Whatever the registers held, after the
/// writes of a construction they hold the baseline: stopped, 32 bit wide,
/// the chosen mode with its divisor, every interrupt of the layout disabled
/// and every match event cleared. Counter and compare/capture registers
/// are left as they were.
pub proof fn lemma_construction_canonical(regs: RegisterState, mode: Mode)
    requires
        regs.well_formed(),
    ensures
        TimerState::baseline(regs.layout, mode).well_formed(),
        TimerState::baseline(regs.layout, mode).matches(
            regs.replay(init_writes(regs.layout, mode)),
        ),
        forall|i: int|
            0 <= i < regs.layout.channel_count() ==> !regs.replay(
                init_writes(regs.layout, mode),
            ).events[i],
        regs.replay(init_writes(regs.layout, mode)).counter == regs.counter,
        regs.replay(init_writes(regs.layout, mode)).cc == regs.cc,
{
    let layout = regs.layout;
    let w0 = RegisterWrite::TasksStop;
    let w1 = RegisterWrite::Bitmode(Width::W32.code_of());
    let w2 = RegisterWrite::IntenClr(layout.all_lanes());
    let s0 = Seq::<RegisterWrite>::empty();
    let s1 = s0.push(w0);
    let s2 = s1.push(w1);
    let s3 = s2.push(w2);
    let s4 = s3.push(RegisterWrite::EventsCompare(0));
    let s5 = s4.push(RegisterWrite::EventsCompare(1));
    let s6 = s5.push(RegisterWrite::EventsCompare(2));
    let s7 = s6.push(RegisterWrite::EventsCompare(3));
    lemma_replay_push(regs, s0, w0);
    lemma_replay_push(regs, s1, w1);
    lemma_replay_push(regs, s2, w2);
    lemma_replay_push(regs, s3, RegisterWrite::EventsCompare(0));
    lemma_replay_push(regs, s4, RegisterWrite::EventsCompare(1));
    lemma_replay_push(regs, s5, RegisterWrite::EventsCompare(2));
    lemma_replay_push(regs, s6, RegisterWrite::EventsCompare(3));
    let unpended = match layout {
        Layout::Basic => s7,
        Layout::Extended => s7.push(RegisterWrite::EventsCompare(4)).push(
            RegisterWrite::EventsCompare(5),
        ),
    };
    if layout == Layout::Extended {
        lemma_replay_push(regs, s7, RegisterWrite::EventsCompare(4));
        lemma_replay_push(
            regs,
            s7.push(RegisterWrite::EventsCompare(4)),
            RegisterWrite::EventsCompare(5),
        );
    }
    let cleared = regs.replay(unpended);
    assert(cleared.inten == regs.inten & !layout.all_lanes());
    assert(!cleared.running && cleared.bitmode == 3 && cleared.layout == layout);
    assert(forall|i: int| 0 <= i < layout.channel_count() ==> !cleared.events[i]);
    lemma_replay_push(regs, unpended, RegisterWrite::Mode(mode.code_of()));
    match mode {
        Mode::Timer(t) => {
            lemma_replay_push(
                regs,
                unpended.push(RegisterWrite::Mode(mode.code_of())),
                RegisterWrite::Prescaler(t.prescaler.value_of()),
            );
        },
        Mode::Counter(_) => {},
    }
    let all = match mode {
        Mode::Counter(_) => unpended.push(RegisterWrite::Mode(mode.code_of())),
        Mode::Timer(t) => unpended.push(RegisterWrite::Mode(mode.code_of())).push(
            RegisterWrite::Prescaler(t.prescaler.value_of()),
        ),
    };
    assert(init_writes(layout, mode) =~= all);
    let last = regs.replay(init_writes(layout, mode));
    assert(last.inten == cleared.inten);
    assert forall|j: usize| j < layout.channel_count() implies !#[trigger] lane_enabled(
        last.inten,
        j,
    ) by {
        lemma_clear_all_lanes(regs.inten, layout, j);
    }
    assert(last.cc =~= regs.cc);
}

/// State fidelity from construction on. Whatever the registers held when
/// the unit was taken, after the constructor's writes and any sequence of
/// transitions the recorded state is what the registers hold.
pub proof fn lemma_fidelity_from_construction(
    regs: RegisterState,
    mode: Mode,
    ts: Seq<Transition>,
)
    requires
        regs.well_formed(),
    ensures
        TimerState::baseline(regs.layout, mode).run_all(ts).matches(
            regs.replay(init_writes(regs.layout, mode)).replay(
                TimerState::baseline(regs.layout, mode).trace(ts),
            ),
        ),
{
    lemma_construction_canonical(regs, mode);
    lemma_replay_keeps_shape(regs, init_writes(regs.layout, mode));
    lemma_state_fidelity(
        TimerState::baseline(regs.layout, mode),
        regs.replay(init_writes(regs.layout, mode)),
        ts,
    );
}

/// Whether a transition leaves the recorded state as it is: every one that
/// touches only the counter, a compare/capture register or a match event.
pub open spec fn keeps_markers(t: Transition) -> bool {
    t is Tick || t is Reset || t is Capture || t is CompareAgainst || t is UnpendInterrupt
}

/// After a start, transitions that keep the recorded state leave the handle
/// started and otherwise as it was.
pub proof fn lemma_started_stays(s: TimerState, mid: Seq<Transition>)
    requires
        s.run == RunState::Stopped,
        forall|k: int| 0 <= k < mid.len() ==> keeps_markers(#[trigger] mid[k]),
    ensures
        s.run_all(seq![Transition::Start] + mid) == s.next(Transition::Start),
    decreases mid.len(),
{
    let ts = seq![Transition::Start] + mid;
    if mid.len() == 0 {
        assert(ts.drop_last() =~= Seq::empty());
        assert(s.run_all(ts.drop_last()) == s);
    } else {
        assert(ts.drop_last() =~= seq![Transition::Start] + mid.drop_last());
        lemma_started_stays(s, mid.drop_last());
        assert(keeps_markers(mid[mid.len() - 1]));
        assert(ts.last() == mid[mid.len() - 1]);
    }
}

/// Start/stop round trip. From a stopped handle, a start, then any ticks,
/// resets, captures, comparison targets and unpends, then a stop: the stop
/// is accepted, the recorded state is again what it was before the start,
/// and the stop's write leaves the counter, the compare/capture registers
/// and the match events as the transitions in between left them.
pub proof fn lemma_start_stop_round_trip(s: TimerState, regs: RegisterState, mid: Seq<Transition>)
    requires
        s.run == RunState::Stopped,
        forall|k: int| 0 <= k < mid.len() ==> keeps_markers(#[trigger] mid[k]),
    ensures
        s.run_all(seq![Transition::Start] + mid).refusal(Transition::Stop) is None,
        s.run_all((seq![Transition::Start] + mid).push(Transition::Stop)) == s,
        s.trace((seq![Transition::Start] + mid).push(Transition::Stop)) == s.trace(
            seq![Transition::Start] + mid,
        ).push(RegisterWrite::TasksStop),
        regs.replay(s.trace((seq![Transition::Start] + mid).push(Transition::Stop))).counter
            == regs.replay(s.trace(seq![Transition::Start] + mid)).counter,
        regs.replay(s.trace((seq![Transition::Start] + mid).push(Transition::Stop))).cc
            == regs.replay(s.trace(seq![Transition::Start] + mid)).cc,
        regs.replay(s.trace((seq![Transition::Start] + mid).push(Transition::Stop))).events
            == regs.replay(s.trace(seq![Transition::Start] + mid)).events,
{
    let running = seq![Transition::Start] + mid;
    let ts = running.push(Transition::Stop);
    lemma_started_stays(s, mid);
    assert(ts.drop_last() =~= running);
    lemma_replay_push(regs, s.trace(running), RegisterWrite::TasksStop);
}

/// Interrupt toggle round trip. Where a channel's interrupt is disabled,
/// enabling it is accepted and changes that channel alone, disabling it
/// again is accepted and gives back the state before; and the two writes
/// keep handle and registers in agreement.
pub proof fn lemma_interrupt_toggle_round_trip(s: TimerState, regs: RegisterState, i: usize)
    requires
        s.well_formed(),
        i < s.layout.channel_count(),
        !s.enabled[i as int],
    ensures
        s.refusal(Transition::EnableInterrupt(i)) is None,
        s.next(Transition::EnableInterrupt(i)).enabled[i as int],
        forall|j: int|
            0 <= j < MAX_CHANNELS && j != i ==> s.next(Transition::EnableInterrupt(i)).enabled[j]
                == s.enabled[j],
        s.next(Transition::EnableInterrupt(i)).refusal(Transition::DisableInterrupt(i)) is None,
        s.next(Transition::EnableInterrupt(i)).next(Transition::DisableInterrupt(i)) == s,
        regs.well_formed() && s.matches(regs) ==> s.matches(
            regs.after(TimerState::write_of(Transition::EnableInterrupt(i))).after(
                TimerState::write_of(Transition::DisableInterrupt(i)),
            ),
        ),
{
    let on = s.next(Transition::EnableInterrupt(i));
    let off = on.next(Transition::DisableInterrupt(i));
    assert(off.enabled =~= s.enabled);
    if regs.well_formed() && s.matches(regs) {
        lemma_step_keeps_fidelity(s, regs, Transition::EnableInterrupt(i));
        lemma_step_keeps_fidelity(
            on,
            regs.after(TimerState::write_of(Transition::EnableInterrupt(i))),
            Transition::DisableInterrupt(i),
        );
    }
}

/// Compare/capture independence. A capture on a channel stores the counter
/// value of that moment in the channel's compare/capture register,
/// whatever comparison target was written there before and whatever was
/// written in between.
pub proof fn lemma_capture_overrides_compare(
    regs: RegisterState,
    i: usize,
    v: u32,
    between: Seq<RegisterWrite>,
)
    requires
        regs.well_formed(),
        i < regs.layout.channel_count(),
    ensures
        regs.after(RegisterWrite::Cc(i, v)).cc[i as int] == v,
        regs.after(RegisterWrite::Cc(i, v)).replay(between).after(
            RegisterWrite::TasksCapture(i),
        ).cc[i as int] == regs.after(RegisterWrite::Cc(i, v)).replay(between).counter,
{
    let programmed = regs.after(RegisterWrite::Cc(i, v));
    lemma_after_keeps_shape(regs, RegisterWrite::Cc(i, v));
    lemma_replay_keeps_shape(programmed, between);
}

/// Count tasks change neither layout, run state, mode nor width.
pub proof fn lemma_ticks_keep_settings(regs: RegisterState, n: nat)
    requires
        regs.well_formed(),
    ensures
        regs.after_ticks(n).well_formed(),
        regs.after_ticks(n).layout == regs.layout,
        regs.after_ticks(n).running == regs.running,
        regs.after_ticks(n).mode == regs.mode,
        regs.after_ticks(n).bitmode == regs.bitmode,
    decreases n,
{
    if n > 0 {
        lemma_ticks_keep_settings(regs, (n - 1) as nat);
    }
}

/// Below the limit of the active width, each count task adds one.
pub proof fn lemma_ticks_climb(regs: RegisterState, n: nat)
    requires
        regs.well_formed(),
        regs.counts(),
        regs.counter + n <= regs.limit(),
    ensures
        regs.after_ticks(n).counter == regs.counter + n,
    decreases n,
{
    if n > 0 {
        lemma_ticks_climb(regs, (n - 1) as nat);
        lemma_ticks_keep_settings(regs, (n - 1) as nat);
    }
}

/// Count tasks in two runs are count tasks in one.
pub proof fn lemma_ticks_split(regs: RegisterState, a: nat, b: nat)
    ensures
        regs.after_ticks(a + b) == regs.after_ticks(a).after_ticks(b),
    decreases b,
{
    if b > 0 {
        lemma_ticks_split(regs, a, (b - 1) as nat);
        assert((a + b - 1) as nat == a + (b - 1) as nat);
    }
}

/// Wraparound. On a running unit in counter mode whose counter fits the
/// active width, as many count tasks as the width has values bring the
/// counter back to where it was: 2^32 of them at 32 bit.
pub proof fn lemma_wraparound(regs: RegisterState)
    requires
        regs.well_formed(),
        regs.counts(),
        regs.counter <= regs.limit(),
    ensures
        regs.after_ticks((regs.limit() + 1) as nat).counter == regs.counter,
        regs.bitmode == Width::W32.code_of() ==> regs.after_ticks(0x1_0000_0000).counter
            == regs.counter,
{
    let up = (regs.limit() - regs.counter) as nat;
    let top = regs.after_ticks(up);
    lemma_ticks_climb(regs, up);
    lemma_ticks_keep_settings(regs, up);
    let zero = top.after_ticks(1);
    assert(top.after_ticks(0) == top);
    assert(zero == top.after(RegisterWrite::TasksCount));
    assert(zero.counter == 0);
    lemma_ticks_keep_settings(top, 1);
    lemma_ticks_climb(zero, regs.counter as nat);
    lemma_ticks_split(regs, up, 1);
    lemma_ticks_split(regs, up + 1, regs.counter as nat);
}

/// Illegal calls are refused. A second start is refused for the run state,
/// a second stop too, a divisor in counter mode for the mode, and a tick in
/// timer mode for the mode; a refused transition changes no state and
/// issues no write.
pub proof fn lemma_illegal_calls_refused(
    s: TimerState,
    p: Prescaler,
    ts: Seq<Transition>,
    t: Transition,
)
    ensures
        s.refusal(Transition::Start) is None ==> s.next(Transition::Start).refusal(
            Transition::Start,
        ) == Some(StateError::NotStopped),
        s.refusal(Transition::Stop) is None ==> s.next(Transition::Stop).refusal(
            Transition::Stop,
        ) == Some(StateError::NotStarted),
        s.mode is Counter ==> s.refusal(Transition::SetPrescale(p)) == Some(
            StateError::NotTimerMode,
        ),
        s.mode is Timer ==> s.refusal(Transition::Tick) == Some(StateError::NotCounterMode),
        s.run_all(ts).refusal(t) is Some ==> s.run_all(ts.push(t)) == s.run_all(ts) && s.trace(
            ts.push(t),
        ) == s.trace(ts),
{
    assert(ts.push(t).drop_last() =~= ts);
}

} // verus!
