//! The Pomodoro content: a work clock and a pause clock, a phase
//! selector, and a round counter. When the active clock completes,
//! the phase switches and the other clock restarts automatically;
//! the round counter increments on work completion.

use vstd::prelude::*;
use crate::clock::{sat_add_spec, Clock, ClockDirection, ClockStateArgs};
use crate::common::ClockTypeId;
use crate::events::{AppEvent, KeyCode, TuiEvent};

verus! {

/// Which of the two clocks is active.
#[derive(Clone, Copy, Debug, PartialEq, Eq, Structural)]
pub enum Mode {
    Work,
    Pause,
}

pub struct PomodoroStateArgs {
    pub mode: Mode,
    pub initial_millis_work: u64,
    pub current_millis_work: u64,
    pub initial_millis_pause: u64,
    pub current_millis_pause: u64,
    pub tick_millis: u64,
    pub round: u64,
    pub with_decis: bool,
}

pub struct PomodoroState {
    pub work: Clock,
    pub pause_clock: Clock,
    pub mode: Mode,
    /// Number of completed work phases; increments only on a
    /// work-phase completion, and resets only with the work clock.
    pub round: u64,
}

impl PomodoroState {
    pub open spec fn wf(self) -> bool {
        &&& self.work.wf()
        &&& self.pause_clock.wf()
        &&& self.work.direction is CountDown
        &&& self.pause_clock.direction is CountDown
        &&& self.work.type_id == ClockTypeId::Work
        &&& self.pause_clock.type_id == ClockTypeId::Pause
    }

    /// The state [`PomodoroState::new`] builds: two paused count-down
    /// clocks with the stored phase and round.
    pub open spec fn new_spec(args: PomodoroStateArgs) -> PomodoroState {
        PomodoroState {
            work: Clock::new_spec(
                ClockStateArgs {
                    initial_millis: args.initial_millis_work,
                    current_millis: args.current_millis_work,
                    tick_millis: args.tick_millis,
                    direction: ClockDirection::CountDown,
                    has_max: false,
                    max_millis: 0,
                    with_decis: args.with_decis,
                    type_id: ClockTypeId::Work,
                },
            ),
            pause_clock: Clock::new_spec(
                ClockStateArgs {
                    initial_millis: args.initial_millis_pause,
                    current_millis: args.current_millis_pause,
                    tick_millis: args.tick_millis,
                    direction: ClockDirection::CountDown,
                    has_max: false,
                    max_millis: 0,
                    with_decis: args.with_decis,
                    type_id: ClockTypeId::Pause,
                },
            ),
            mode: args.mode,
            round: args.round,
        }
    }

    pub fn new(args: PomodoroStateArgs) -> (r: PomodoroState)
        ensures
            r == PomodoroState::new_spec(args),
            r.wf(),
            r.mode == args.mode,
            r.round == args.round,
            r.work.initial_millis == args.initial_millis_work,
            r.work.current_millis == args.current_millis_work,
            r.pause_clock.initial_millis == args.initial_millis_pause,
            r.pause_clock.current_millis == args.current_millis_pause,
            r.work.tick_millis == args.tick_millis,
            r.pause_clock.tick_millis == args.tick_millis,
            !r.work.running && !r.pause_clock.running,
            !r.work.edit_mode && !r.pause_clock.edit_mode,
            !r.work.done && !r.pause_clock.done,
    {
        PomodoroState {
            work: Clock::new(
                ClockStateArgs {
                    initial_millis: args.initial_millis_work,
                    current_millis: args.current_millis_work,
                    tick_millis: args.tick_millis,
                    direction: ClockDirection::CountDown,
                    has_max: false,
                    max_millis: 0,
                    with_decis: args.with_decis,
                    type_id: ClockTypeId::Work,
                },
            ),
            pause_clock: Clock::new(
                ClockStateArgs {
                    initial_millis: args.initial_millis_pause,
                    current_millis: args.current_millis_pause,
                    tick_millis: args.tick_millis,
                    direction: ClockDirection::CountDown,
                    has_max: false,
                    max_millis: 0,
                    with_decis: args.with_decis,
                    type_id: ClockTypeId::Pause,
                },
            ),
            mode: args.mode,
            round: args.round,
        }
    }

    /// The clock the current phase routes events to.
    pub open spec fn active_clock(self) -> Clock {
        match self.mode {
            Mode::Work => self.work,
            Mode::Pause => self.pause_clock,
        }
    }

    /// A fresh restart of a clock: back to its initial value, running,
    /// with any stale edit state cleared.
    pub open spec fn restarted(c: Clock) -> Clock {
        Clock {
            current_millis: c.initial_millis,
            running: true,
            done: false,
            edit_mode: false,
            ..c
        }
    }

    /// One tick: the active clock advances; if it completes, the
    /// phase switches, the round counter increments on a work
    /// completion, and the other clock restarts automatically.
    pub open spec fn tick_state(self) -> PomodoroState {
        match self.mode {
            Mode::Work => if self.work.tick_crosses() {
                PomodoroState {
                    work: self.work.tick_state(),
                    pause_clock: Self::restarted(self.pause_clock),
                    mode: Mode::Pause,
                    round: sat_add_spec(self.round, 1),
                }
            } else {
                PomodoroState { work: self.work.tick_state(), ..self }
            },
            Mode::Pause => if self.pause_clock.tick_crosses() {
                PomodoroState {
                    work: Self::restarted(self.work),
                    pause_clock: self.pause_clock.tick_state(),
                    mode: Mode::Work,
                    ..self
                }
            } else {
                PomodoroState { pause_clock: self.pause_clock.tick_state(), ..self }
            },
        }
    }

    pub open spec fn key_state(self, k: KeyCode) -> PomodoroState {
        match self.mode {
            Mode::Work => PomodoroState { work: self.work.key_state(k), ..self },
            Mode::Pause => PomodoroState { pause_clock: self.pause_clock.key_state(k), ..self },
        }
    }

    pub open spec fn update_state(self, e: TuiEvent) -> PomodoroState {
        match e {
            TuiEvent::Tick => self.tick_state(),
            TuiEvent::Key(k) => self.key_state(k),
            _ => self,
        }
    }

    pub open spec fn update_unhandled(self, e: TuiEvent) -> Option<TuiEvent> {
        match e {
            TuiEvent::Tick => None,
            TuiEvent::Key(k) => if self.active_clock().key_consumed(k) {
                None
            } else {
                Some(e)
            },
            _ => Some(e),
        }
    }

    pub open spec fn update_emit(self, e: TuiEvent) -> Option<AppEvent> {
        match e {
            TuiEvent::Tick => match self.active_clock().tick_signal() {
                Some(t) => Some(AppEvent::ClockDone(t)),
                None => None,
            },
            _ => None,
        }
    }

    /// Feed one event to the pomodoro. Ticks drive the active phase's
    /// clock and chain phases on completion; the clock keys go to the
    /// active clock; everything else is handed back unchanged.
    pub fn update(&mut self, event: TuiEvent) -> (r: (Option<TuiEvent>, Option<AppEvent>))
        ensures
            *final(self) == old(self).update_state(event),
            r.0 == old(self).update_unhandled(event),
            r.1 == old(self).update_emit(event),
    {
        match event {
            TuiEvent::Tick => {
                let signal = match self.mode {
                    Mode::Work => self.work.tick(),
                    Mode::Pause => self.pause_clock.tick(),
                };
                match signal {
                    Some(t) => {
                        match self.mode {
                            Mode::Work => {
                                self.pause_clock.current_millis =
                                    self.pause_clock.initial_millis;
                                self.pause_clock.running = true;
                                self.pause_clock.done = false;
                                self.pause_clock.edit_mode = false;
                                self.mode = Mode::Pause;
                                self.round = crate::clock::sat_add(self.round, 1);
                            },
                            Mode::Pause => {
                                self.work.current_millis = self.work.initial_millis;
                                self.work.running = true;
                                self.work.done = false;
                                self.work.edit_mode = false;
                                self.mode = Mode::Work;
                            },
                        }
                        (None, Some(AppEvent::ClockDone(t)))
                    },
                    None => (None, None),
                }
            },
            TuiEvent::Key(k) => {
                let consumed = match self.mode {
                    Mode::Work => self.work.handle_key(k),
                    Mode::Pause => self.pause_clock.handle_key(k),
                };
                if consumed {
                    (None, None)
                } else {
                    (Some(event), None)
                }
            },
            _ => (Some(event), None),
        }
    }

    pub fn get_clock(&self) -> (r: &Clock)
        ensures
            r == self.active_clock(),
    {
        match self.mode {
            Mode::Work => &self.work,
            Mode::Pause => &self.pause_clock,
        }
    }

    pub fn get_clock_work(&self) -> (r: &Clock)
        ensures
            r == self.work,
    {
        &self.work
    }

    pub fn get_clock_pause(&self) -> (r: &Clock)
        ensures
            r == self.pause_clock,
    {
        &self.pause_clock
    }

    pub fn get_mode(&self) -> (r: Mode)
        ensures
            r == self.mode,
    {
        self.mode
    }

    pub fn get_round(&self) -> (r: u64)
        ensures
            r == self.round,
    {
        self.round
    }

    pub fn set_with_decis(&mut self, with_decis: bool)
        ensures
            *final(self) == (PomodoroState {
                work: Clock { with_decis, ..old(self).work },
                pause_clock: Clock { with_decis, ..old(self).pause_clock },
                ..*old(self)
            }),
    {
        self.work.set_with_decis(with_decis);
        self.pause_clock.set_with_decis(with_decis);
    }
}

/// A work-phase completion increments the round counter by exactly
/// one, switches the phase, and leaves the pause clock restarted at
/// its configured initial value and running, with the completion
/// signalled as a work clock-done event.
pub proof fn lemma_work_done_starts_pause(s: PomodoroState)
    requires
        s.wf(),
        s.mode is Work,
        s.work.tick_crosses(),
        s.round < u64::MAX,
    ensures
        s.tick_state().round == s.round + 1,
        s.tick_state().mode is Pause,
        s.tick_state().pause_clock.current_millis == s.pause_clock.initial_millis,
        s.tick_state().pause_clock.running,
        !s.tick_state().pause_clock.done,
        s.tick_state().work.done && !s.tick_state().work.running,
        s.update_emit(TuiEvent::Tick) == Some(AppEvent::ClockDone(ClockTypeId::Work)),
{
}

} // verus!
