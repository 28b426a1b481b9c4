use nrf52840_hal::rtime::bitmode::{limit_of_code, Width};
use nrf52840_hal::rtime::interrupt::{interrupt_bit, interrupt_bit_set, Layout, MAX_CHANNELS};
use nrf52840_hal::rtime::mode::{Counter, Mode, Timer as TimerMode};
use nrf52840_hal::rtime::prescaler::Prescaler;
use nrf52840_hal::rtime::registers::{RegisterWrite, Registers};
use nrf52840_hal::rtime::state::RunState;
use nrf52840_hal::rtime::timer::{StateError, Timer, Transition};

/// Registers with leftovers: started, 16 bit wide, counter mode, a divisor,
/// a counter value, channels 1 and 3 pending, interrupts 0 and 2 enabled.
fn dirty(layout: Layout) -> Registers {
    Registers {
        layout,
        running: true,
        mode: 1,
        bitmode: 0,
        prescaler: 7,
        counter: 1234,
        cc: [11, 22, 33, 44, 55, 66],
        events_compare: [false, true, false, true, false, false],
        inten: 0x0005_0000,
    }
}

type Snapshot = (Layout, Width, Mode, RunState, [bool; 6]);

fn snapshot(handle: &Timer) -> Snapshot {
    let mut lanes = [false; 6];
    for (i, lane) in lanes.iter_mut().enumerate() {
        *lane = handle.interrupt_enabled(i);
    }
    (handle.layout(), handle.width(), handle.mode(), handle.run_state(), lanes)
}

fn timer_on(layout: Layout) -> (Timer, Registers) {
    let (handle, writes) = Timer::timer(layout);
    let mut regs = dirty(layout);
    regs.apply_all(&writes);
    (handle, regs)
}

fn counter_on(layout: Layout) -> (Timer, Registers) {
    let (handle, writes) = Timer::counter(layout);
    let mut regs = dirty(layout);
    regs.apply_all(&writes);
    (handle, regs)
}

fn undivided_timer() -> Mode {
    Mode::Timer(TimerMode { prescaler: Prescaler::Div1 })
}

#[test]
fn width_codes_are_the_register_encodings() {
    assert_eq!(Width::W16.code(), 0);
    assert_eq!(Width::W8.code(), 1);
    assert_eq!(Width::W24.code(), 2);
    assert_eq!(Width::W32.code(), 3);
}

#[test]
fn width_bits_and_largest_counts() {
    assert_eq!(Width::W8.bits(), 8);
    assert_eq!(Width::W16.bits(), 16);
    assert_eq!(Width::W24.bits(), 24);
    assert_eq!(Width::W32.bits(), 32);
    assert_eq!(Width::W8.max_count(), 0xFF);
    assert_eq!(Width::W16.max_count(), 0xFFFF);
    assert_eq!(Width::W24.max_count(), 0x00FF_FFFF);
    assert_eq!(Width::W32.max_count(), 0xFFFF_FFFF);
}

#[test]
fn limit_of_code_reads_codes_above_three_as_32_bit() {
    assert_eq!(limit_of_code(0), 0xFFFF);
    assert_eq!(limit_of_code(1), 0xFF);
    assert_eq!(limit_of_code(2), 0x00FF_FFFF);
    assert_eq!(limit_of_code(3), 0xFFFF_FFFF);
    assert_eq!(limit_of_code(4), 0xFFFF_FFFF);
    assert_eq!(limit_of_code(u32::MAX), 0xFFFF_FFFF);
}

#[test]
fn prescaler_values_are_the_exponents() {
    let all = [
        Prescaler::Div1,
        Prescaler::Div2,
        Prescaler::Div4,
        Prescaler::Div8,
        Prescaler::Div16,
        Prescaler::Div32,
        Prescaler::Div64,
        Prescaler::Div128,
        Prescaler::Div256,
        Prescaler::Div512,
    ];
    for (i, p) in all.iter().enumerate() {
        assert_eq!(p.value(), i as u32);
    }
}

#[test]
fn mode_codes_and_accessors() {
    let counter = Mode::Counter(Counter);
    let timer = Mode::Timer(TimerMode { prescaler: Prescaler::Div8 });
    assert_eq!(counter.code(), 1);
    assert_eq!(timer.code(), 0);
    assert!(counter.is_counter());
    assert!(!timer.is_counter());
    assert_eq!(counter.prescaler(), None);
    assert_eq!(timer.prescaler(), Some(Prescaler::Div8));
}

#[test]
fn run_state_is_started() {
    assert!(RunState::Started.is_started());
    assert!(!RunState::Stopped.is_started());
}

#[test]
fn layouts_have_four_and_six_channels() {
    assert_eq!(Layout::Basic.channels(), 4);
    assert_eq!(Layout::Extended.channels(), 6);
    assert_eq!(MAX_CHANNELS, 6);
    assert_eq!(Layout::Basic.all_interrupt_bits(), 0x000F_0000);
    assert_eq!(Layout::Extended.all_interrupt_bits(), 0x003F_0000);
}

#[test]
fn interrupt_bits_start_at_bit_16() {
    assert_eq!(interrupt_bit(0), 0x0001_0000);
    assert_eq!(interrupt_bit(1), 0x0002_0000);
    assert_eq!(interrupt_bit(2), 0x0004_0000);
    assert_eq!(interrupt_bit(3), 0x0008_0000);
    assert_eq!(interrupt_bit(4), 0x0010_0000);
    assert_eq!(interrupt_bit(5), 0x0020_0000);
    assert_eq!(interrupt_bit(6), 0);
    for i in 0..6 {
        assert_eq!(interrupt_bit(i), 1u32 << (16 + i));
    }
    assert!(interrupt_bit_set(0x0005_0000, 0));
    assert!(!interrupt_bit_set(0x0005_0000, 1));
    assert!(interrupt_bit_set(0x0005_0000, 2));
    assert!(!interrupt_bit_set(0xFFFF_FFFF, 6));
}

#[test]
fn power_on_registers() {
    let regs = Registers::new(Layout::Extended);
    assert_eq!(
        regs,
        Registers {
            layout: Layout::Extended,
            running: false,
            mode: 0,
            bitmode: 0,
            prescaler: 0,
            counter: 0,
            cc: [0; 6],
            events_compare: [false; 6],
            inten: 0,
        }
    );
}

#[test]
fn timer_constructor_writes_basic() {
    let (handle, writes) = Timer::timer(Layout::Basic);
    assert_eq!(
        writes,
        vec![
            RegisterWrite::TasksStop,
            RegisterWrite::Bitmode(3),
            RegisterWrite::IntenClr(0x000F_0000),
            RegisterWrite::EventsCompare(0),
            RegisterWrite::EventsCompare(1),
            RegisterWrite::EventsCompare(2),
            RegisterWrite::EventsCompare(3),
            RegisterWrite::Mode(0),
            RegisterWrite::Prescaler(0),
        ]
    );
    assert_eq!(handle.layout(), Layout::Basic);
    assert_eq!(handle.width(), Width::W32);
    assert_eq!(handle.mode(), undivided_timer());
    assert_eq!(handle.run_state(), RunState::Stopped);
    for i in 0..8 {
        assert!(!handle.interrupt_enabled(i));
    }
}

#[test]
fn timer_constructor_writes_extended() {
    let (handle, writes) = Timer::timer(Layout::Extended);
    assert_eq!(
        writes,
        vec![
            RegisterWrite::TasksStop,
            RegisterWrite::Bitmode(3),
            RegisterWrite::IntenClr(0x003F_0000),
            RegisterWrite::EventsCompare(0),
            RegisterWrite::EventsCompare(1),
            RegisterWrite::EventsCompare(2),
            RegisterWrite::EventsCompare(3),
            RegisterWrite::EventsCompare(4),
            RegisterWrite::EventsCompare(5),
            RegisterWrite::Mode(0),
            RegisterWrite::Prescaler(0),
        ]
    );
    assert_eq!(handle.layout(), Layout::Extended);
    assert_eq!(handle.mode(), undivided_timer());
}

#[test]
fn counter_constructor_writes_basic() {
    let (handle, writes) = Timer::counter(Layout::Basic);
    assert_eq!(
        writes,
        vec![
            RegisterWrite::TasksStop,
            RegisterWrite::Bitmode(3),
            RegisterWrite::IntenClr(0x000F_0000),
            RegisterWrite::EventsCompare(0),
            RegisterWrite::EventsCompare(1),
            RegisterWrite::EventsCompare(2),
            RegisterWrite::EventsCompare(3),
            RegisterWrite::Mode(1),
        ]
    );
    assert_eq!(handle.mode(), Mode::Counter(Counter));
    assert_eq!(handle.width(), Width::W32);
    assert_eq!(handle.run_state(), RunState::Stopped);
}

#[test]
fn counter_constructor_writes_extended() {
    let (handle, writes) = Timer::counter(Layout::Extended);
    assert_eq!(writes.len(), 10);
    assert_eq!(writes[2], RegisterWrite::IntenClr(0x003F_0000));
    assert_eq!(writes[8], RegisterWrite::EventsCompare(5));
    assert_eq!(writes[9], RegisterWrite::Mode(1));
    assert_eq!(handle.layout(), Layout::Extended);
    assert_eq!(handle.mode(), Mode::Counter(Counter));
}

#[test]
fn construction_as_timer_canonicalizes_leftovers() {
    for layout in [Layout::Basic, Layout::Extended] {
        let (handle, regs) = timer_on(layout);
        assert!(!regs.running);
        assert_eq!(regs.bitmode, 3);
        assert_eq!(regs.mode, 0);
        assert_eq!(regs.prescaler, 0);
        assert_eq!(regs.inten, 0);
        assert_eq!(regs.events_compare, [false; 6]);
        assert_eq!(regs.counter, 1234);
        assert_eq!(regs.cc, [11, 22, 33, 44, 55, 66]);
        assert!(handle.agrees_with(&regs));
    }
}

#[test]
fn construction_as_counter_canonicalizes_leftovers() {
    for layout in [Layout::Basic, Layout::Extended] {
        let (handle, regs) = counter_on(layout);
        assert!(!regs.running);
        assert_eq!(regs.bitmode, 3);
        assert_eq!(regs.mode, 1);
        assert_eq!(regs.prescaler, 7);
        assert_eq!(regs.inten, 0);
        assert_eq!(regs.events_compare, [false; 6]);
        assert!(handle.agrees_with(&regs));
    }
}

#[test]
fn construction_keeps_interrupt_bits_of_other_sources() {
    let (_, writes) = Timer::timer(Layout::Basic);
    let mut regs = dirty(Layout::Basic);
    regs.inten = 0xFFFF_FFFF;
    regs.apply_all(&writes);
    assert_eq!(regs.inten, 0xFFF0_FFFF);
}

#[test]
fn a_fresh_handle_disagrees_with_leftover_registers() {
    let (handle, _) = Timer::timer(Layout::Basic);
    assert!(!handle.agrees_with(&dirty(Layout::Basic)));
    let (_, canonical) = timer_on(Layout::Basic);
    let mut enabled = canonical;
    enabled.inten = 0x0008_0000;
    assert!(!handle.agrees_with(&enabled));
    let mut other_layout = canonical;
    other_layout.layout = Layout::Extended;
    assert!(!handle.agrees_with(&other_layout));
    let mut divided = canonical;
    divided.prescaler = 1;
    assert!(!handle.agrees_with(&divided));
    assert!(handle.agrees_with(&canonical));
}

#[test]
fn start_then_stop_round_trip() {
    let (mut handle, mut regs) = counter_on(Layout::Extended);
    regs.apply(handle.enable_interrupt(2).unwrap());
    regs.apply(handle.set_counterwidth(Width::W16).unwrap());
    let before = snapshot(&handle);
    assert_eq!(handle.start(), Ok(RegisterWrite::TasksStart));
    regs.apply(RegisterWrite::TasksStart);
    assert_eq!(handle.run_state(), RunState::Started);
    regs.apply(handle.reset());
    for _ in 0..5 {
        regs.apply(handle.tick().unwrap());
    }
    regs.apply(handle.capture(4).unwrap());
    regs.apply(handle.tick().unwrap());
    assert_eq!(handle.stop(), Ok(RegisterWrite::TasksStop));
    regs.apply(RegisterWrite::TasksStop);
    assert_eq!(snapshot(&handle), before);
    assert_eq!(handle.mode(), Mode::Counter(Counter));
    assert_eq!(handle.width(), Width::W16);
    assert!(handle.interrupt_enabled(2));
    assert_eq!(regs.counter, 6);
    assert_eq!(regs.cc[4], 5);
    assert!(!regs.running);
    assert!(handle.agrees_with(&regs));
}

#[test]
fn start_twice_is_refused() {
    let (mut handle, _) = timer_on(Layout::Basic);
    assert_eq!(handle.start(), Ok(RegisterWrite::TasksStart));
    let started = snapshot(&handle);
    assert_eq!(handle.start(), Err(StateError::NotStopped));
    assert_eq!(snapshot(&handle), started);
}

#[test]
fn stop_while_stopped_is_refused() {
    let (mut handle, _) = timer_on(Layout::Basic);
    let stopped = snapshot(&handle);
    assert_eq!(handle.stop(), Err(StateError::NotStarted));
    assert_eq!(snapshot(&handle), stopped);
}

#[test]
fn set_prescale_in_counter_mode_is_refused() {
    let (mut handle, _) = counter_on(Layout::Basic);
    let before = snapshot(&handle);
    assert_eq!(handle.set_prescale(Prescaler::Div16), Err(StateError::NotTimerMode));
    assert_eq!(snapshot(&handle), before);
    handle.start().unwrap();
    assert_eq!(handle.set_prescale(Prescaler::Div16), Err(StateError::NotTimerMode));
}

#[test]
fn set_prescale_changes_the_divisor_of_a_stopped_timer() {
    let (mut handle, mut regs) = timer_on(Layout::Basic);
    assert_eq!(handle.set_prescale(Prescaler::Div512), Ok(RegisterWrite::Prescaler(9)));
    regs.apply(RegisterWrite::Prescaler(9));
    assert_eq!(handle.mode(), Mode::Timer(TimerMode { prescaler: Prescaler::Div512 }));
    assert_eq!(regs.prescaler, 9);
    assert!(handle.agrees_with(&regs));
    handle.start().unwrap();
    let started = snapshot(&handle);
    assert_eq!(handle.set_prescale(Prescaler::Div2), Err(StateError::NotStopped));
    assert_eq!(snapshot(&handle), started);
}

#[test]
fn set_counterwidth_needs_a_stopped_unit() {
    let (mut handle, mut regs) = timer_on(Layout::Basic);
    assert_eq!(handle.set_counterwidth(Width::W8), Ok(RegisterWrite::Bitmode(1)));
    regs.apply(RegisterWrite::Bitmode(1));
    assert_eq!(handle.width(), Width::W8);
    assert_eq!(handle.set_counterwidth(Width::W24), Ok(RegisterWrite::Bitmode(2)));
    assert_eq!(handle.set_counterwidth(Width::W16), Ok(RegisterWrite::Bitmode(0)));
    assert_eq!(handle.set_counterwidth(Width::W32), Ok(RegisterWrite::Bitmode(3)));
    handle.start().unwrap();
    let started = snapshot(&handle);
    assert_eq!(handle.set_counterwidth(Width::W8), Err(StateError::NotStopped));
    assert_eq!(snapshot(&handle), started);
    assert_eq!(regs.bitmode, 1);
}

#[test]
fn tick_needs_counter_mode_and_a_started_unit() {
    let (mut timer, _) = timer_on(Layout::Basic);
    assert_eq!(timer.tick(), Err(StateError::NotCounterMode));
    timer.start().unwrap();
    assert_eq!(timer.tick(), Err(StateError::NotCounterMode));

    let (mut counter, mut regs) = counter_on(Layout::Basic);
    let stopped = snapshot(&counter);
    assert_eq!(counter.tick(), Err(StateError::NotStarted));
    assert_eq!(snapshot(&counter), stopped);
    regs.apply(counter.start().unwrap());
    regs.apply(counter.reset());
    assert_eq!(counter.tick(), Ok(RegisterWrite::TasksCount));
    regs.apply(RegisterWrite::TasksCount);
    assert_eq!(regs.counter, 1);
    regs.apply(counter.tick().unwrap());
    assert_eq!(regs.counter, 2);
}

#[test]
fn reset_zeroes_the_counter_in_either_run_state() {
    let (mut handle, mut regs) = counter_on(Layout::Basic);
    assert_eq!(regs.counter, 1234);
    let before = snapshot(&handle);
    assert_eq!(handle.reset(), RegisterWrite::TasksClear);
    regs.apply(RegisterWrite::TasksClear);
    assert_eq!(snapshot(&handle), before);
    assert_eq!(regs.counter, 0);
    assert!(!regs.running);
    regs.apply(handle.start().unwrap());
    regs.apply(handle.tick().unwrap());
    regs.apply(handle.tick().unwrap());
    assert_eq!(regs.counter, 2);
    let started = snapshot(&handle);
    regs.apply(handle.reset());
    assert_eq!(snapshot(&handle), started);
    assert_eq!(regs.counter, 0);
    assert!(regs.running);
    assert_eq!(regs.bitmode, 3);
    assert_eq!(regs.mode, 1);
}

#[test]
fn interrupt_toggle_round_trip_on_every_channel() {
    for layout in [Layout::Basic, Layout::Extended] {
        for i in 0..layout.channels() {
            let (mut handle, mut regs) = timer_on(layout);
            regs.apply(handle.enable_interrupt((i + 1) % layout.channels()).unwrap());
            let before = snapshot(&handle);
            let regs_before = regs;
            assert_eq!(handle.enable_interrupt(i), Ok(RegisterWrite::IntenSet(1 << (16 + i))));
            regs.apply(RegisterWrite::IntenSet(1 << (16 + i)));
            assert!(handle.interrupt_enabled(i));
            for j in 0..6 {
                if j != i {
                    assert_eq!(handle.interrupt_enabled(j), before.4[j]);
                }
            }
            assert!(handle.agrees_with(&regs));
            assert_eq!(handle.disable_interrupt(i), Ok(RegisterWrite::IntenClr(1 << (16 + i))));
            regs.apply(RegisterWrite::IntenClr(1 << (16 + i)));
            assert_eq!(snapshot(&handle), before);
            assert_eq!(regs, regs_before);
        }
    }
}

#[test]
fn interrupts_toggle_in_any_mode_and_run_state() {
    let (mut timer, _) = timer_on(Layout::Basic);
    timer.start().unwrap();
    assert!(timer.enable_interrupt(3).is_ok());
    assert!(timer.disable_interrupt(3).is_ok());
    let (mut counter, _) = counter_on(Layout::Extended);
    assert!(counter.enable_interrupt(5).is_ok());
    counter.start().unwrap();
    assert!(counter.disable_interrupt(5).is_ok());
    assert!(counter.enable_interrupt(0).is_ok());
}

#[test]
fn enabling_an_enabled_interrupt_is_refused() {
    let (mut handle, _) = timer_on(Layout::Basic);
    handle.enable_interrupt(1).unwrap();
    let before = snapshot(&handle);
    assert_eq!(handle.enable_interrupt(1), Err(StateError::AlreadyEnabled));
    assert_eq!(snapshot(&handle), before);
}

#[test]
fn disabling_a_disabled_interrupt_is_refused() {
    let (mut handle, _) = timer_on(Layout::Basic);
    let before = snapshot(&handle);
    assert_eq!(handle.disable_interrupt(0), Err(StateError::AlreadyDisabled));
    assert_eq!(snapshot(&handle), before);
}

#[test]
fn channels_beyond_the_layout_are_refused() {
    let (mut basic, _) = timer_on(Layout::Basic);
    let before = snapshot(&basic);
    assert_eq!(basic.enable_interrupt(4), Err(StateError::NoSuchChannel));
    assert_eq!(basic.disable_interrupt(5), Err(StateError::NoSuchChannel));
    assert_eq!(basic.unpend_interrupt(4), Err(StateError::NoSuchChannel));
    assert_eq!(basic.compare_against(4, 9), Err(StateError::NoSuchChannel));
    assert_eq!(basic.capture(usize::MAX), Err(StateError::NoSuchChannel));
    assert_eq!(snapshot(&basic), before);
    let (mut extended, _) = timer_on(Layout::Extended);
    assert_eq!(extended.enable_interrupt(4), Ok(RegisterWrite::IntenSet(0x0010_0000)));
    assert_eq!(extended.capture(5), Ok(RegisterWrite::TasksCapture(5)));
    assert_eq!(extended.enable_interrupt(6), Err(StateError::NoSuchChannel));
    assert_eq!(extended.capture(6), Err(StateError::NoSuchChannel));
}

#[test]
fn channel_operations_ignore_interrupt_and_run_state() {
    let (mut handle, _) = counter_on(Layout::Basic);
    assert_eq!(handle.unpend_interrupt(0), Ok(RegisterWrite::EventsCompare(0)));
    assert_eq!(handle.compare_against(1, 0xFFFF_FFFF), Ok(RegisterWrite::Cc(1, 0xFFFF_FFFF)));
    assert_eq!(handle.capture(2), Ok(RegisterWrite::TasksCapture(2)));
    handle.enable_interrupt(3).unwrap();
    handle.start().unwrap();
    let before = snapshot(&handle);
    assert_eq!(handle.unpend_interrupt(3), Ok(RegisterWrite::EventsCompare(3)));
    assert_eq!(handle.compare_against(3, 7), Ok(RegisterWrite::Cc(3, 7)));
    assert_eq!(handle.capture(3), Ok(RegisterWrite::TasksCapture(3)));
    assert_eq!(snapshot(&handle), before);
}

#[test]
fn capture_stores_the_counter_whatever_was_compared_against() {
    let (mut handle, mut regs) = counter_on(Layout::Basic);
    regs.apply(handle.reset());
    regs.apply(handle.compare_against(2, 0xDEAD_BEEF).unwrap());
    assert_eq!(regs.cc[2], 0xDEAD_BEEF);
    regs.apply(handle.start().unwrap());
    for _ in 0..9 {
        regs.apply(handle.tick().unwrap());
    }
    regs.apply(handle.capture(2).unwrap());
    assert_eq!(regs.cc[2], 9);
    assert_eq!(regs.cc, [11, 22, 9, 44, 55, 66]);
    regs.apply(handle.tick().unwrap());
    assert_eq!(regs.cc[2], 9);
    assert_eq!(regs.counter, 10);
}

#[test]
fn counter_wraps_at_32_bit() {
    let (mut handle, mut regs) = counter_on(Layout::Basic);
    regs.apply(handle.start().unwrap());
    regs.counter = 0xFFFF_FFFE;
    regs.apply(handle.tick().unwrap());
    assert_eq!(regs.counter, 0xFFFF_FFFF);
    regs.apply(handle.tick().unwrap());
    assert_eq!(regs.counter, 0);
    regs.apply(handle.tick().unwrap());
    assert_eq!(regs.counter, 1);
}

#[test]
fn counter_returns_after_as_many_ticks_as_the_width_has_values() {
    for (width, ticks) in [(Width::W8, 1u32 << 8), (Width::W16, 1u32 << 16)] {
        let (mut handle, mut regs) = counter_on(Layout::Basic);
        regs.apply(handle.set_counterwidth(width).unwrap());
        regs.apply(handle.reset());
        regs.apply(handle.start().unwrap());
        for _ in 0..77 {
            regs.apply(handle.tick().unwrap());
        }
        assert_eq!(regs.counter, 77);
        for n in 0..ticks {
            assert_eq!(regs.counter <= width.max_count(), true);
            if n == ticks - 78 {
                assert_eq!(regs.counter, width.max_count());
            }
            regs.apply(handle.tick().unwrap());
        }
        assert_eq!(regs.counter, 77);
    }
}

#[test]
fn count_task_does_nothing_unless_counting() {
    let mut stopped = Registers::new(Layout::Basic);
    stopped.mode = 1;
    stopped.apply(RegisterWrite::TasksCount);
    assert_eq!(stopped.counter, 0);
    let mut timer = Registers::new(Layout::Basic);
    timer.running = true;
    timer.apply(RegisterWrite::TasksCount);
    assert_eq!(timer.counter, 0);
    let mut counting = Registers::new(Layout::Basic);
    counting.running = true;
    counting.mode = 1;
    counting.apply(RegisterWrite::TasksCount);
    assert_eq!(counting.counter, 1);
}

#[test]
fn match_events_latch_until_unpended() {
    let (mut handle, mut regs) = counter_on(Layout::Extended);
    regs.apply(handle.reset());
    regs.apply(handle.compare_against(5, 3).unwrap());
    regs.apply(handle.start().unwrap());
    regs.apply(handle.tick().unwrap());
    regs.apply(handle.tick().unwrap());
    assert_eq!(regs.events_compare, [false; 6]);
    regs.apply(handle.tick().unwrap());
    assert_eq!(regs.events_compare, [false, false, false, false, false, true]);
    regs.apply(handle.tick().unwrap());
    assert!(regs.events_compare[5]);
    assert_eq!(handle.unpend_interrupt(5), Ok(RegisterWrite::EventsCompare(5)));
    regs.apply(RegisterWrite::EventsCompare(5));
    assert_eq!(regs.events_compare, [false; 6]);
}

#[test]
fn comparison_uses_only_the_bits_of_the_width() {
    let (mut handle, mut regs) = counter_on(Layout::Basic);
    regs.apply(handle.set_counterwidth(Width::W8).unwrap());
    regs.apply(handle.reset());
    assert_eq!(handle.compare_against(0, 0x1234_5602), Ok(RegisterWrite::Cc(0, 0x1234_5602)));
    regs.apply(RegisterWrite::Cc(0, 0x1234_5602));
    assert_eq!(regs.cc[0], 0x1234_5602);
    regs.apply(handle.start().unwrap());
    regs.apply(handle.tick().unwrap());
    assert!(!regs.events_compare[0]);
    regs.apply(handle.tick().unwrap());
    assert_eq!(regs.counter, 2);
    assert!(regs.events_compare[0]);
}

#[test]
fn basic_units_have_no_fifth_channel_in_the_model() {
    let mut regs = dirty(Layout::Basic);
    let before = regs;
    regs.apply(RegisterWrite::Cc(4, 1));
    regs.apply(RegisterWrite::TasksCapture(5));
    regs.apply(RegisterWrite::EventsCompare(4));
    regs.apply(RegisterWrite::Cc(6, 1));
    assert_eq!(regs, before);
    let mut extended = dirty(Layout::Extended);
    extended.apply(RegisterWrite::Cc(4, 1));
    extended.apply(RegisterWrite::TasksCapture(5));
    assert_eq!(extended.cc, [11, 22, 33, 44, 1, 1234]);
}

#[test]
fn each_write_changes_its_own_register() {
    let mut regs = dirty(Layout::Extended);
    regs.apply(RegisterWrite::TasksStop);
    assert!(!regs.running);
    regs.apply(RegisterWrite::TasksStart);
    assert!(regs.running);
    regs.apply(RegisterWrite::Bitmode(2));
    assert_eq!(regs.bitmode, 2);
    regs.apply(RegisterWrite::Mode(0));
    assert_eq!(regs.mode, 0);
    regs.apply(RegisterWrite::Prescaler(5));
    assert_eq!(regs.prescaler, 5);
    regs.apply(RegisterWrite::IntenSet(0x0002_0000));
    assert_eq!(regs.inten, 0x0007_0000);
    regs.apply(RegisterWrite::IntenClr(0x0001_0000));
    assert_eq!(regs.inten, 0x0006_0000);
    regs.apply(RegisterWrite::EventsCompare(1));
    assert_eq!(regs.events_compare, [false, false, false, true, false, false]);
    regs.apply(RegisterWrite::TasksClear);
    assert_eq!(regs.counter, 0);
}

#[test]
fn apply_all_is_apply_in_order() {
    let writes = vec![
        RegisterWrite::TasksClear,
        RegisterWrite::TasksCount,
        RegisterWrite::TasksCount,
        RegisterWrite::TasksCapture(0),
        RegisterWrite::TasksClear,
        RegisterWrite::TasksCount,
    ];
    let mut all_at_once = dirty(Layout::Basic);
    all_at_once.apply_all(&writes);
    let mut one_by_one = dirty(Layout::Basic);
    for w in &writes {
        one_by_one.apply(*w);
    }
    assert_eq!(all_at_once, one_by_one);
    assert_eq!(all_at_once.counter, 1);
    assert_eq!(all_at_once.cc[0], 2);
    let mut untouched = dirty(Layout::Basic);
    untouched.apply_all(&Vec::new());
    assert_eq!(untouched, dirty(Layout::Basic));
}

#[test]
fn handle_and_registers_agree_after_every_transition() {
    let sequence = [
        Transition::EnableInterrupt(0),
        Transition::SetPrescale(Prescaler::Div32),
        Transition::SetCounterwidth(Width::W24),
        Transition::Start,
        Transition::Start,
        Transition::SetPrescale(Prescaler::Div2),
        Transition::Tick,
        Transition::EnableInterrupt(3),
        Transition::EnableInterrupt(4),
        Transition::CompareAgainst(1, 99),
        Transition::Capture(1),
        Transition::DisableInterrupt(0),
        Transition::DisableInterrupt(0),
        Transition::Reset,
        Transition::UnpendInterrupt(2),
        Transition::Stop,
        Transition::Stop,
        Transition::SetCounterwidth(Width::W8),
    ];
    for layout in [Layout::Basic, Layout::Extended] {
        for as_counter in [false, true] {
            let (mut handle, mut regs) =
                if as_counter { counter_on(layout) } else { timer_on(layout) };
            assert!(handle.agrees_with(&regs));
            for t in sequence {
                let handle_before = snapshot(&handle);
                let regs_before = regs;
                match handle.step(t) {
                    Ok(w) => regs.apply(w),
                    Err(_) => {
                        assert_eq!(snapshot(&handle), handle_before);
                        assert_eq!(regs, regs_before);
                    }
                }
                assert!(handle.agrees_with(&regs));
            }
            assert_eq!(handle.run_state(), RunState::Stopped);
            assert_eq!(handle.width(), Width::W8);
            assert!(handle.interrupt_enabled(3));
            assert!(!handle.interrupt_enabled(0));
            assert_eq!(handle.interrupt_enabled(4), layout == Layout::Extended);
        }
    }
}

#[test]
fn step_reports_what_the_named_operations_report() {
    let (mut by_step, _) = timer_on(Layout::Basic);
    let (mut by_name, _) = timer_on(Layout::Basic);
    assert_eq!(by_step.step(Transition::Tick), by_name.tick());
    assert_eq!(by_step.step(Transition::Start), by_name.start());
    assert_eq!(by_step.step(Transition::Start), Err(StateError::NotStopped));
    assert_eq!(by_step.step(Transition::Reset), Ok(by_name.reset()));
    assert_eq!(by_step.step(Transition::Stop), by_name.stop());
    assert_eq!(by_step.step(Transition::Stop), Err(StateError::NotStarted));
    assert_eq!(
        by_step.step(Transition::SetPrescale(Prescaler::Div4)),
        by_name.set_prescale(Prescaler::Div4)
    );
    assert_eq!(by_step.step(Transition::EnableInterrupt(2)), by_name.enable_interrupt(2));
    assert_eq!(by_step.step(Transition::EnableInterrupt(2)), Err(StateError::AlreadyEnabled));
    assert_eq!(by_step.step(Transition::DisableInterrupt(1)), Err(StateError::AlreadyDisabled));
    assert_eq!(by_step.step(Transition::Capture(9)), Err(StateError::NoSuchChannel));
    assert_eq!(snapshot(&by_step), snapshot(&by_name));
}
