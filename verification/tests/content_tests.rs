use timr::clock::{Clock, ClockDirection, ClockStateArgs};
use timr::common::{AppTime, AppTimeFormat, ClockTypeId, Content, Style};
use timr::countdown::{CountdownState, CountdownStateArgs};
use timr::events::{AppEvent, KeyCode, TuiEvent};
use timr::local_time::{LocalTimeState, LocalTimeStateArgs, LocalTimeWidget};
use timr::pomodoro::{Mode, PomodoroState, PomodoroStateArgs};
use timr::schedule::{EventState, EventStateArgs};
use timr::timer::TimerState;

fn countdown(initial: u64, current: u64, elapsed: u64, tick: u64) -> CountdownState {
    CountdownState::new(CountdownStateArgs {
        initial_millis: initial,
        current_millis: current,
        elapsed_millis: elapsed,
        tick_millis: tick,
        with_decis: false,
        app_time: AppTime::from_millis(0),
    })
}

fn pomodoro(work: u64, pause: u64, mode: Mode, round: u64, tick: u64) -> PomodoroState {
    PomodoroState::new(PomodoroStateArgs {
        mode,
        initial_millis_work: work,
        current_millis_work: work,
        initial_millis_pause: pause,
        current_millis_pause: pause,
        tick_millis: tick,
        round,
        with_decis: false,
    })
}

#[test]
fn content_cycles_through_all_five_variants() {
    let all = [
        Content::Countdown,
        Content::Timer,
        Content::Pomodoro,
        Content::Event,
        Content::LocalTime,
    ];
    for c in all {
        let five = c.next().next().next().next().next();
        assert_eq!(five, c);
        assert_eq!(c.next().prev(), c);
        assert_eq!(c.prev().next(), c);
    }
    assert_eq!(Content::Countdown.next(), Content::Timer);
    assert_eq!(Content::LocalTime.next(), Content::Countdown);
    assert_eq!(Content::Countdown.prev(), Content::LocalTime);
}

#[test]
fn countdown_scenario_ticks_track_current_and_elapsed() {
    let mut s = countdown(0, 10000, 0, 1000);
    // Start the clock.
    let (u, e) = s.update(TuiEvent::Key(KeyCode::Char(' ')));
    assert!(u.is_none());
    assert!(e.is_none());
    assert!(s.clock.running);
    let mut signals = 0;
    for _ in 0..3 {
        let (_, e) = s.update(TuiEvent::Tick);
        if e.is_some() {
            signals += 1;
        }
    }
    assert_eq!(s.clock.current_millis, 7000);
    assert_eq!(s.elapsed_millis, 3000);
    assert!(!s.clock.done);
    for _ in 0..7 {
        let (_, e) = s.update(TuiEvent::Tick);
        if let Some(AppEvent::ClockDone(t)) = e {
            assert_eq!(t, ClockTypeId::Countdown);
            signals += 1;
        }
    }
    assert_eq!(s.clock.current_millis, 0);
    assert_eq!(s.elapsed_millis, 10000);
    assert!(s.clock.done);
    assert_eq!(signals, 1);
    // One more tick changes nothing and stays silent.
    let (_, e) = s.update(TuiEvent::Tick);
    assert!(e.is_none());
    assert_eq!(s.elapsed_millis, 10000);
}

#[test]
fn timer_scenario_bound_reached_once() {
    let mut t = TimerState::new(Clock::new(ClockStateArgs {
        initial_millis: 0,
        current_millis: 0,
        tick_millis: 1000,
        direction: ClockDirection::CountUp,
        has_max: true,
        max_millis: 5000,
        with_decis: false,
        type_id: ClockTypeId::Timer,
    }));
    t.update(TuiEvent::Key(KeyCode::Char(' ')));
    let mut signals = 0;
    for _ in 0..5 {
        let (_, e) = t.update(TuiEvent::Tick);
        if let Some(AppEvent::ClockDone(id)) = e {
            assert_eq!(id, ClockTypeId::Timer);
            signals += 1;
        }
    }
    assert_eq!(t.clock.current_millis, 5000);
    assert!(t.clock.done);
    assert_eq!(signals, 1);
    // The sixth tick is a no-op: value stays, no second signal.
    let (_, e) = t.update(TuiEvent::Tick);
    assert!(e.is_none());
    assert_eq!(t.clock.current_millis, 5000);
}

#[test]
fn countdown_passes_unrecognized_keys_through() {
    let mut s = countdown(10000, 10000, 0, 100);
    let ev = TuiEvent::Key(KeyCode::Char('x'));
    let (u, e) = s.update(ev);
    assert_eq!(u, Some(ev));
    assert!(e.is_none());
    let rz = TuiEvent::Resize(80, 24);
    let (u, _) = s.update(rz);
    assert_eq!(u, Some(rz));
}

#[test]
fn countdown_entry_commits_typed_duration() {
    let mut s = countdown(10000, 10000, 500, 100);
    // Open the whole-duration entry; it requests a cursor.
    let (u, e) = s.update(TuiEvent::Key(KeyCode::Char('i')));
    assert!(u.is_none());
    assert_eq!(e, Some(AppEvent::SetCursor(Some(0))));
    assert!(s.time_edit);
    assert!(!s.clock.running);
    // Type 0:05:30.
    for (i, c) in ['0', '0', '0', '5', '3', '0'].iter().enumerate() {
        let (u, e) = s.update(TuiEvent::Key(KeyCode::Char(*c)));
        assert!(u.is_none());
        assert_eq!(e, Some(AppEvent::SetCursor(Some((i + 1) as u16))));
    }
    // A seventh digit is swallowed without effect.
    let (u, e) = s.update(TuiEvent::Key(KeyCode::Char('9')));
    assert!(u.is_none());
    assert!(e.is_none());
    assert_eq!(s.entry_value, 530);
    // Commit: both initial and current take the typed duration.
    let (_, e) = s.update(TuiEvent::Key(KeyCode::Enter));
    assert_eq!(e, Some(AppEvent::SetCursor(None)));
    assert!(!s.time_edit);
    assert_eq!(s.clock.current_millis, 5 * 60_000 + 30_000);
    assert_eq!(s.clock.initial_millis, 5 * 60_000 + 30_000);
}

#[test]
fn countdown_entry_cancel_keeps_clock() {
    let mut s = countdown(10000, 7000, 0, 100);
    s.update(TuiEvent::Key(KeyCode::Char('i')));
    s.update(TuiEvent::Key(KeyCode::Char('9')));
    let (_, e) = s.update(TuiEvent::Key(KeyCode::Esc));
    assert_eq!(e, Some(AppEvent::SetCursor(None)));
    assert!(!s.time_edit);
    assert_eq!(s.clock.current_millis, 7000);
    assert_eq!(s.entry_value, 0);
}

#[test]
fn countdown_reset_clears_elapsed() {
    let mut s = countdown(10000, 10000, 0, 1000);
    s.update(TuiEvent::Key(KeyCode::Char(' ')));
    s.update(TuiEvent::Tick);
    s.update(TuiEvent::Tick);
    assert_eq!(s.elapsed_millis, 2000);
    s.update(TuiEvent::Key(KeyCode::Char(' ')));
    s.update(TuiEvent::Key(KeyCode::Char('r')));
    assert_eq!(s.elapsed_millis, 0);
    assert_eq!(s.clock.current_millis, 10000);
}

#[test]
fn countdown_edit_submodes_exclude_each_other() {
    let mut s = countdown(10000, 10000, 0, 100);
    s.update(TuiEvent::Key(KeyCode::Char('e')));
    assert!(s.clock.edit_mode);
    assert!(!s.time_edit);
    // While the clock digit edit is open, `i` is not an entry key.
    s.update(TuiEvent::Key(KeyCode::Char('i')));
    assert!(!s.time_edit);
    s.update(TuiEvent::Key(KeyCode::Esc));
    assert!(!s.clock.edit_mode);
}

#[test]
fn pomodoro_work_done_starts_pause_and_increments_round() {
    let mut p = pomodoro(2000, 3000, Mode::Work, 4, 1000);
    p.update(TuiEvent::Key(KeyCode::Char(' ')));
    assert!(p.work.running);
    let (_, e) = p.update(TuiEvent::Tick);
    assert!(e.is_none());
    let (_, e) = p.update(TuiEvent::Tick);
    // Work completed: one work signal, phase switched, round + 1,
    // pause clock restarted at its configured initial value, running.
    assert_eq!(e, Some(AppEvent::ClockDone(ClockTypeId::Work)));
    assert_eq!(p.get_mode(), Mode::Pause);
    assert_eq!(p.get_round(), 5);
    assert_eq!(p.pause_clock.current_millis, 3000);
    assert!(p.pause_clock.running);
    assert!(!p.pause_clock.done);
    assert!(p.work.done);
}

#[test]
fn pomodoro_pause_done_keeps_round() {
    let mut p = pomodoro(2000, 1000, Mode::Pause, 7, 1000);
    p.update(TuiEvent::Key(KeyCode::Char(' ')));
    let (_, e) = p.update(TuiEvent::Tick);
    assert_eq!(e, Some(AppEvent::ClockDone(ClockTypeId::Pause)));
    assert_eq!(p.get_mode(), Mode::Work);
    assert_eq!(p.get_round(), 7);
    assert!(p.work.running);
    assert_eq!(p.work.current_millis, 2000);
}

#[test]
fn pomodoro_keys_go_to_active_clock() {
    let mut p = pomodoro(2000, 3000, Mode::Pause, 0, 100);
    p.update(TuiEvent::Key(KeyCode::Char(' ')));
    assert!(p.pause_clock.running);
    assert!(!p.work.running);
    let ev = TuiEvent::Key(KeyCode::Char('z'));
    let (u, _) = p.update(ev);
    assert_eq!(u, Some(ev));
}

#[test]
fn event_screen_derives_remaining_and_never_completes() {
    let mut e = EventState::new(EventStateArgs {
        app_time: AppTime::from_millis(1000),
        target_millis: 11000,
        with_decis: false,
    });
    assert_eq!(e.get_remaining(), 10000);
    e.set_app_time(AppTime::from_millis(6000));
    let (u, emitted) = e.update(TuiEvent::Tick);
    assert!(u.is_none());
    assert!(emitted.is_none());
    assert_eq!(e.get_remaining(), 5000);
    assert_eq!(e.get_percentage_done(), 50);
    // Past the target the remaining clamps to zero, still no signal.
    e.set_app_time(AppTime::from_millis(20000));
    let (_, emitted) = e.update(TuiEvent::Tick);
    assert!(emitted.is_none());
    assert_eq!(e.get_remaining(), 0);
    assert_eq!(e.get_percentage_done(), 100);
}

#[test]
fn event_target_editing_moves_by_minutes() {
    let mut e = EventState::new(EventStateArgs {
        app_time: AppTime::from_millis(0),
        target_millis: 120_000,
        with_decis: false,
    });
    e.update(TuiEvent::Key(KeyCode::Char('e')));
    assert!(e.is_edit_mode());
    e.update(TuiEvent::Key(KeyCode::Up));
    assert_eq!(e.target_millis, 180_000);
    e.update(TuiEvent::Key(KeyCode::Down));
    e.update(TuiEvent::Key(KeyCode::Down));
    assert_eq!(e.target_millis, 60_000);
    e.update(TuiEvent::Key(KeyCode::Esc));
    assert!(!e.is_edit_mode());
    // Outside edit mode the arrows pass through.
    let ev = TuiEvent::Key(KeyCode::Up);
    let (u, _) = e.update(ev);
    assert_eq!(u, Some(ev));
}

#[test]
fn local_time_consumes_only_ticks() {
    let mut l = LocalTimeState::new(LocalTimeStateArgs {
        app_time: AppTime::from_millis(0),
        app_time_format: AppTimeFormat::HhMmSs,
    });
    assert!(l.update(TuiEvent::Tick).is_none());
    let ev = TuiEvent::Key(KeyCode::Char('q'));
    assert_eq!(l.update(ev), Some(ev));
    l.set_app_time(AppTime::from_millis(42));
    assert_eq!(l.time.millis, 42);
    l.set_app_time_format(AppTimeFormat::HhMm);
    assert_eq!(l.format, AppTimeFormat::HhMm);
}

#[test]
fn local_time_layout_widths_per_format() {
    let w = LocalTimeWidget { style: Style::Full };
    let full = w.get_horizontal_lengths(&AppTimeFormat::HhMmSs);
    assert_eq!(full.len(), 11);
    let short = w.get_horizontal_lengths(&AppTimeFormat::HhMm);
    assert_eq!(short.len(), 7);
    let twelve = w.get_horizontal_lengths(&AppTimeFormat::Hh12Mm);
    assert_eq!(twelve.len(), 10);
    // The 12-hour layout balances the trailing period marker with a
    // leading offset of the same total width.
    assert_eq!(twelve[0], twelve[8] + twelve[9]);
    let sum_full: u16 = full.iter().sum();
    let sum_short: u16 = short.iter().sum();
    assert!(sum_full > sum_short);
}

#[test]
fn time_format_cycles() {
    assert_eq!(AppTimeFormat::first(), AppTimeFormat::HhMmSs);
    assert_eq!(AppTimeFormat::last(), AppTimeFormat::Hh12Mm);
    let f = AppTimeFormat::HhMmSs;
    assert_eq!(f.next().next().next(), f);
}

#[test]
fn countdown_entry_takes_digit_pairs_as_typed() {
    // "9999" reads as 99 minutes and 99 seconds.
    let mut s = countdown(0, 0, 0, 100);
    s.update(TuiEvent::Key(KeyCode::Char('i')));
    for c in ['9', '9', '9', '9'] {
        s.update(TuiEvent::Key(KeyCode::Char(c)));
    }
    s.update(TuiEvent::Key(KeyCode::Enter));
    assert_eq!(s.clock.current_millis, (99 * 60 + 99) * 1000);
}

#[test]
fn event_percentage_clamps_before_start() {
    let mut e = EventState::new(EventStateArgs {
        app_time: AppTime::from_millis(5000),
        target_millis: 10000,
        with_decis: false,
    });
    // A snapshot earlier than the creation point reads as no progress.
    e.set_app_time(AppTime::from_millis(1000));
    assert_eq!(e.get_percentage_done(), 0);
    assert_eq!(e.get_remaining(), 9000);
}

#[test]
fn style_cycles_through_all_variants() {
    let s = Style::Full;
    assert_eq!(s.next().next().next().next().next(), s);
    assert_ne!(s.next(), s);
}
