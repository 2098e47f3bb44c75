//! The Timer content: a single count-up clock with an upper bound,
//! which signals Done on reaching it instead of counting indefinitely.

use vstd::prelude::*;
use crate::clock::Clock;
use crate::common::ClockTypeId;
use crate::events::{AppEvent, KeyCode, TuiEvent};

verus! {

/// The bound a timer counts up to: 99 hours, 59 minutes, 59 seconds.
pub const TIMER_MAX_MS: u64 = 359999000;

pub struct TimerState {
    pub clock: Clock,
}

impl TimerState {
    /// The timer wraps a bounded count-up clock.
    pub open spec fn wf(self) -> bool {
        &&& self.clock.wf()
        &&& self.clock.direction is CountUp
        &&& self.clock.has_max
        &&& self.clock.type_id == ClockTypeId::Timer
    }

    pub fn new(clock: Clock) -> (r: TimerState)
        ensures
            r.clock == clock,
    {
        TimerState { clock }
    }

    pub open spec fn update_state(self, e: TuiEvent) -> TimerState {
        match e {
            TuiEvent::Tick => TimerState { clock: self.clock.tick_state() },
            TuiEvent::Key(k) => TimerState { clock: self.clock.key_state(k) },
            _ => self,
        }
    }

    pub open spec fn update_unhandled(self, e: TuiEvent) -> Option<TuiEvent> {
        match e {
            TuiEvent::Tick => None,
            TuiEvent::Key(k) => if self.clock.key_consumed(k) {
                None
            } else {
                Some(e)
            },
            _ => Some(e),
        }
    }

    pub open spec fn update_emit(self, e: TuiEvent) -> Option<AppEvent> {
        match e {
            TuiEvent::Tick => match self.clock.tick_signal() {
                Some(t) => Some(AppEvent::ClockDone(t)),
                None => None,
            },
            _ => None,
        }
    }

    /// Feed one event to the timer. Ticks advance the clock and may
    /// signal completion; the clock keys are consumed; everything else
    /// is handed back unchanged.
    pub fn update(&mut self, event: TuiEvent) -> (r: (Option<TuiEvent>, Option<AppEvent>))
        ensures
            *final(self) == old(self).update_state(event),
            r.0 == old(self).update_unhandled(event),
            r.1 == old(self).update_emit(event),
    {
        match event {
            TuiEvent::Tick => {
                let signal = self.clock.tick();
                let emit = match signal {
                    Some(t) => Some(AppEvent::ClockDone(t)),
                    None => None,
                };
                (None, emit)
            },
            TuiEvent::Key(k) => {
                let consumed = self.clock.handle_key(k);
                if consumed {
                    (None, None)
                } else {
                    (Some(event), None)
                }
            },
            _ => (Some(event), None),
        }
    }

    pub fn get_clock(&self) -> (r: &Clock)
        ensures
            r == self.clock,
    {
        &self.clock
    }

    pub fn set_with_decis(&mut self, with_decis: bool)
        ensures
            *final(self) == (TimerState { clock: Clock { with_decis, ..old(self).clock } }),
    {
        self.clock.set_with_decis(with_decis);
    }
}

} // verus!
