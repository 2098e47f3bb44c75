use timr::clock::{Clock, ClockDirection, ClockStateArgs, EditGroup, MS_PER_MINUTE, MS_PER_SECOND};
use timr::common::ClockTypeId;

fn countdown_clock(initial: u64, current: u64, tick: u64) -> Clock {
    Clock::new(ClockStateArgs {
        initial_millis: initial,
        current_millis: current,
        tick_millis: tick,
        direction: ClockDirection::CountDown,
        has_max: false,
        max_millis: 0,
        with_decis: false,
        type_id: ClockTypeId::Countdown,
    })
}

fn timer_clock(current: u64, max: u64, tick: u64) -> Clock {
    Clock::new(ClockStateArgs {
        initial_millis: 0,
        current_millis: current,
        tick_millis: tick,
        direction: ClockDirection::CountUp,
        has_max: true,
        max_millis: max,
        with_decis: false,
        type_id: ClockTypeId::Timer,
    })
}

#[test]
fn new_clock_is_paused_and_clean() {
    let c = countdown_clock(10000, 10000, 100);
    assert!(!c.running);
    assert!(!c.edit_mode);
    assert!(!c.done);
    assert_eq!(c.current_millis, 10000);
}

#[test]
fn new_timer_clamps_to_max() {
    let c = timer_clock(9000, 5000, 100);
    assert_eq!(c.current_millis, 5000);
}

#[test]
fn tick_only_moves_while_running() {
    let mut c = countdown_clock(10000, 10000, 1000);
    assert_eq!(c.tick(), None);
    assert_eq!(c.current_millis, 10000);
    c.toggle_pause();
    assert_eq!(c.tick(), None);
    assert_eq!(c.current_millis, 9000);
}

#[test]
fn countdown_tick_clamps_at_zero_and_signals_once() {
    let mut c = countdown_clock(2500, 2500, 1000);
    c.toggle_pause();
    assert_eq!(c.tick(), None);
    assert_eq!(c.tick(), None);
    assert_eq!(c.current_millis, 500);
    // Crossing zero clamps, stops, and signals exactly once.
    assert_eq!(c.tick(), Some(ClockTypeId::Countdown));
    assert_eq!(c.current_millis, 0);
    assert!(c.done);
    assert!(!c.running);
    // Done: further ticks are no-ops with no second signal.
    assert_eq!(c.tick(), None);
    assert_eq!(c.current_millis, 0);
    // Even resumed at the bound it never signals again before a reset.
    c.toggle_pause();
    assert_eq!(c.tick(), None);
    assert!(c.done);
}

#[test]
fn timer_reaches_bound_after_five_ticks_and_sixth_is_noop() {
    let mut t = timer_clock(0, 5000, 1000);
    t.toggle_pause();
    for _ in 0..4 {
        assert_eq!(t.tick(), None);
    }
    assert_eq!(t.current_millis, 4000);
    assert!(!t.done);
    // Fifth tick reaches the bound: done, exactly one signal.
    assert_eq!(t.tick(), Some(ClockTypeId::Timer));
    assert_eq!(t.current_millis, 5000);
    assert!(t.done);
    assert!(!t.running);
    // Sixth tick is a no-op: value stays at the bound, no second signal.
    assert_eq!(t.tick(), None);
    assert_eq!(t.current_millis, 5000);
}

#[test]
fn enter_edit_pauses_clock() {
    let mut c = countdown_clock(10000, 10000, 100);
    c.toggle_pause();
    assert!(c.running);
    c.enter_edit();
    assert!(c.edit_mode);
    assert!(!c.running);
    // Exiting edit does not auto-resume.
    c.exit_edit();
    assert!(!c.running);
}

#[test]
fn toggle_pause_is_noop_in_edit_mode() {
    let mut c = countdown_clock(10000, 10000, 100);
    c.enter_edit();
    c.toggle_pause();
    assert!(!c.running);
}

#[test]
fn edit_adjust_while_running_is_noop() {
    let mut c = countdown_clock(10000, 10000, 100);
    c.toggle_pause();
    let before = c.current_millis;
    c.edit_adjust(true);
    assert_eq!(c.current_millis, before);
}

#[test]
fn edit_adjust_moves_by_selected_group_and_clamps() {
    let mut c = countdown_clock(10000, 10000, 100);
    c.enter_edit();
    assert_eq!(c.edit_group, EditGroup::Seconds);
    c.edit_adjust(true);
    assert_eq!(c.current_millis, 10000 + MS_PER_SECOND);
    c.edit_prev();
    assert_eq!(c.edit_group, EditGroup::Minutes);
    c.edit_adjust(true);
    assert_eq!(c.current_millis, 11000 + MS_PER_MINUTE);
    // Adjusting far down clamps at zero.
    c.edit_next();
    for _ in 0..100 {
        c.edit_adjust(false);
    }
    assert_eq!(c.current_millis, 0);
}

#[test]
fn edit_adjust_up_clamps_at_timer_max() {
    let mut t = timer_clock(4900, 5000, 100);
    t.enter_edit();
    t.edit_adjust(true);
    assert_eq!(t.current_millis, 5000);
}

#[test]
fn reset_restores_initial_and_clears_done() {
    let mut c = countdown_clock(1000, 1000, 1000);
    c.toggle_pause();
    assert_eq!(c.tick(), Some(ClockTypeId::Countdown));
    assert!(c.done);
    c.reset();
    assert_eq!(c.current_millis, 1000);
    assert!(!c.done);
    assert!(!c.running);
    // After a reset the next crossing signals again.
    c.toggle_pause();
    assert_eq!(c.tick(), Some(ClockTypeId::Countdown));
}

#[test]
fn percentage_of_countdown() {
    let c = countdown_clock(10000, 7500, 100);
    assert_eq!(c.get_percentage_done(), Some(25));
    let z = countdown_clock(0, 0, 100);
    assert_eq!(z.get_percentage_done(), Some(100));
    // A resumed current value above the initial saturates at zero.
    let over = countdown_clock(5000, 10000, 100);
    assert_eq!(over.get_percentage_done(), Some(0));
}

#[test]
fn percentage_of_bounded_count_up() {
    let t = timer_clock(2500, 5000, 100);
    assert_eq!(t.get_percentage_done(), Some(50));
    let unbounded = Clock::new(ClockStateArgs {
        initial_millis: 0,
        current_millis: 100,
        tick_millis: 100,
        direction: ClockDirection::CountUp,
        has_max: false,
        max_millis: 0,
        with_decis: false,
        type_id: ClockTypeId::Timer,
    });
    assert_eq!(unbounded.get_percentage_done(), None);
}

#[test]
fn short_countdown_crosses_in_one_tick() {
    let mut c = countdown_clock(500, 500, 1000);
    c.toggle_pause();
    assert_eq!(c.tick(), Some(ClockTypeId::Countdown));
    assert_eq!(c.current_millis, 0);
}

#[test]
fn edit_cursor_wraps_both_ways() {
    let mut c = countdown_clock(10000, 10000, 100);
    c.enter_edit();
    let start = c.edit_group;
    c.edit_next();
    c.edit_next();
    c.edit_next();
    c.edit_next();
    assert_eq!(c.edit_group, start);
    c.edit_prev();
    c.edit_prev();
    c.edit_prev();
    c.edit_prev();
    assert_eq!(c.edit_group, start);
    // Cursor movement is edit-mode only.
    c.exit_edit();
    c.edit_next();
    assert_eq!(c.edit_group, start);
}
