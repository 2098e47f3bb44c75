//! The Countdown content: one count-down clock plus an independently
//! tracked elapsed value (so a previous run's progress survives a
//! restart), and a whole-duration entry sub-mode distinct from the
//! clock's own digit-edit mode.

use vstd::prelude::*;
use crate::clock::{sat_add, sat_add_spec, Clock, ClockDirection, ClockStateArgs};
use crate::common::{AppTime, ClockTypeId};
use crate::events::{AppEvent, KeyCode, TuiEvent};

verus! {

/// Largest count of digits the duration entry accepts (HHMMSS).
pub const ENTRY_MAX_DIGITS: u8 = 6;

/// The smallest value the entry cannot reach with the given number of
/// typed digits: an upper bound used as the entry invariant.
pub open spec fn entry_bound(len: u8) -> u64 {
    if len == 0 {
        1
    } else if len == 1 {
        10
    } else if len == 2 {
        100
    } else if len == 3 {
        1000
    } else if len == 4 {
        10000
    } else if len == 5 {
        100000
    } else {
        1000000
    }
}

/// The committed duration of an entry value read as HHMMSS digits.
pub open spec fn entry_millis_spec(v: u64) -> u64 {
    (((v / 10000) * 3600 + ((v / 100) % 100) * 60 + v % 100) * 1000) as u64
}

pub open spec fn is_digit_char(c: char) -> bool {
    48 <= c as u32 <= 57
}

pub open spec fn digit_char_val(c: char) -> u64 {
    (c as u32 - 48) as u64
}

pub struct CountdownStateArgs {
    pub initial_millis: u64,
    pub current_millis: u64,
    pub elapsed_millis: u64,
    pub tick_millis: u64,
    pub with_decis: bool,
    pub app_time: AppTime,
}

pub struct CountdownState {
    pub clock: Clock,
    pub elapsed_millis: u64,
    /// Whole-duration entry sub-mode, mutually exclusive with the
    /// clock's digit-edit mode.
    pub time_edit: bool,
    /// Digits typed so far in the entry, as a decimal HHMMSS number.
    pub entry_value: u64,
    pub entry_len: u8,
    pub app_time: AppTime,
}

impl CountdownState {
    pub open spec fn wf(self) -> bool {
        &&& self.clock.wf()
        &&& self.clock.direction is CountDown
        &&& self.clock.type_id == ClockTypeId::Countdown
        &&& !(self.time_edit && self.clock.edit_mode)
        &&& self.time_edit ==> !self.clock.running
        &&& self.entry_len <= ENTRY_MAX_DIGITS
        &&& self.entry_value < entry_bound(self.entry_len)
    }

    /// The state [`CountdownState::new`] builds: a paused count-down
    /// clock and a closed duration entry.
    pub open spec fn new_spec(args: CountdownStateArgs) -> CountdownState {
        CountdownState {
            clock: Clock::new_spec(
                ClockStateArgs {
                    initial_millis: args.initial_millis,
                    current_millis: args.current_millis,
                    tick_millis: args.tick_millis,
                    direction: ClockDirection::CountDown,
                    has_max: false,
                    max_millis: 0,
                    with_decis: args.with_decis,
                    type_id: ClockTypeId::Countdown,
                },
            ),
            elapsed_millis: args.elapsed_millis,
            time_edit: false,
            entry_value: 0,
            entry_len: 0,
            app_time: args.app_time,
        }
    }

    pub fn new(args: CountdownStateArgs) -> (r: CountdownState)
        ensures
            r == CountdownState::new_spec(args),
            r.wf(),
            r.clock.initial_millis == args.initial_millis,
            r.clock.current_millis == args.current_millis,
            r.clock.tick_millis == args.tick_millis,
            r.clock.with_decis == args.with_decis,
            !r.clock.running && !r.clock.edit_mode && !r.clock.done,
            r.elapsed_millis == args.elapsed_millis,
            !r.time_edit,
            r.entry_value == 0 && r.entry_len == 0,
            r.app_time == args.app_time,
    {
        CountdownState {
            clock: Clock::new(
                ClockStateArgs {
                    initial_millis: args.initial_millis,
                    current_millis: args.current_millis,
                    tick_millis: args.tick_millis,
                    direction: ClockDirection::CountDown,
                    has_max: false,
                    max_millis: 0,
                    with_decis: args.with_decis,
                    type_id: ClockTypeId::Countdown,
                },
            ),
            elapsed_millis: args.elapsed_millis,
            time_edit: false,
            entry_value: 0,
            entry_len: 0,
            app_time: args.app_time,
        }
    }

    /// One tick: the clock advances while it is running, and the
    /// elapsed value advances by the same delta.
    pub open spec fn tick_state(self) -> CountdownState {
        if self.clock.ticks_now() {
            CountdownState {
                clock: self.clock.tick_state(),
                elapsed_millis: sat_add_spec(self.elapsed_millis, self.clock.tick_millis),
                ..self
            }
        } else {
            self
        }
    }

    /// The state after one key press while the duration entry is open.
    pub open spec fn entry_key_state(self, k: KeyCode) -> CountdownState {
        match k {
            KeyCode::Char(c) => if is_digit_char(c) && self.entry_len < ENTRY_MAX_DIGITS {
                CountdownState {
                    entry_value: (self.entry_value * 10 + digit_char_val(c)) as u64,
                    entry_len: (self.entry_len + 1) as u8,
                    ..self
                }
            } else {
                self
            },
            KeyCode::Enter => CountdownState {
                clock: Clock {
                    initial_millis: entry_millis_spec(self.entry_value),
                    current_millis: entry_millis_spec(self.entry_value),
                    done: false,
                    ..self.clock
                },
                time_edit: false,
                entry_value: 0,
                entry_len: 0,
                ..self
            },
            KeyCode::Esc => CountdownState { time_edit: false, entry_value: 0, entry_len: 0, ..self },
            _ => self,
        }
    }

    pub open spec fn entry_key_consumed(self, k: KeyCode) -> bool {
        match k {
            KeyCode::Char(c) => is_digit_char(c),
            KeyCode::Enter | KeyCode::Esc => true,
            _ => false,
        }
    }

    /// The cursor request the entry emits for a key it consumes.
    pub open spec fn entry_key_emit(self, k: KeyCode) -> Option<AppEvent> {
        match k {
            KeyCode::Char(c) => if is_digit_char(c) && self.entry_len < ENTRY_MAX_DIGITS {
                Some(AppEvent::SetCursor(Some((self.entry_len + 1) as u16)))
            } else if is_digit_char(c) {
                None
            } else {
                None
            },
            KeyCode::Enter | KeyCode::Esc => Some(AppEvent::SetCursor(None)),
            _ => None,
        }
    }

    /// The state after one key press outside the entry sub-mode: `i`
    /// opens the duration entry (pausing the clock); everything else
    /// goes through the shared clock key bindings, where `r` also
    /// clears the elapsed value.
    pub open spec fn plain_key_state(self, k: KeyCode) -> CountdownState {
        match k {
            KeyCode::Char(c) => if c == 'i' && !self.clock.edit_mode {
                CountdownState {
                    clock: Clock { running: false, ..self.clock },
                    time_edit: true,
                    entry_value: 0,
                    entry_len: 0,
                    ..self
                }
            } else if c == 'r' && self.clock.key_consumed(k) {
                CountdownState { clock: self.clock.key_state(k), elapsed_millis: 0, ..self }
            } else {
                CountdownState { clock: self.clock.key_state(k), ..self }
            },
            _ => CountdownState { clock: self.clock.key_state(k), ..self },
        }
    }

    pub open spec fn plain_key_consumed(self, k: KeyCode) -> bool {
        match k {
            KeyCode::Char(c) => (c == 'i' && !self.clock.edit_mode) || self.clock.key_consumed(k),
            _ => self.clock.key_consumed(k),
        }
    }

    pub open spec fn plain_key_emit(self, k: KeyCode) -> Option<AppEvent> {
        match k {
            KeyCode::Char(c) => if c == 'i' && !self.clock.edit_mode {
                Some(AppEvent::SetCursor(Some(0u16)))
            } else {
                None
            },
            _ => None,
        }
    }

    pub open spec fn update_state(self, e: TuiEvent) -> CountdownState {
        match e {
            TuiEvent::Tick => self.tick_state(),
            TuiEvent::Key(k) => if self.time_edit {
                self.entry_key_state(k)
            } else {
                self.plain_key_state(k)
            },
            _ => self,
        }
    }

    pub open spec fn update_unhandled(self, e: TuiEvent) -> Option<TuiEvent> {
        match e {
            TuiEvent::Tick => None,
            TuiEvent::Key(k) => if self.time_edit {
                if self.entry_key_consumed(k) {
                    None
                } else {
                    Some(e)
                }
            } else {
                if self.plain_key_consumed(k) {
                    None
                } else {
                    Some(e)
                }
            },
            _ => Some(e),
        }
    }

    pub open spec fn update_emit(self, e: TuiEvent) -> Option<AppEvent> {
        match e {
            TuiEvent::Tick => match self.clock.tick_signal() {
                Some(t) => Some(AppEvent::ClockDone(t)),
                None => None,
            },
            TuiEvent::Key(k) => if self.time_edit {
                self.entry_key_emit(k)
            } else {
                self.plain_key_emit(k)
            },
            _ => None,
        }
    }

    /// Feed one event to the countdown. Ticks advance clock and
    /// elapsed value and may signal completion; keys are interpreted
    /// by whichever edit sub-mode is active; unrecognized events are
    /// handed back unchanged.
    pub fn update(&mut self, event: TuiEvent) -> (r: (Option<TuiEvent>, Option<AppEvent>))
        requires
            old(self).wf(),
        ensures
            final(self).wf(),
            *final(self) == old(self).update_state(event),
            r.0 == old(self).update_unhandled(event),
            r.1 == old(self).update_emit(event),
    {
        match event {
            TuiEvent::Tick => {
                let was_ticking = self.clock.is_running() && !self.clock.is_edit_mode();
                let signal = self.clock.tick();
                if was_ticking {
                    self.elapsed_millis = sat_add(self.elapsed_millis, self.clock.tick_millis);
                }
                let emit = match signal {
                    Some(t) => Some(AppEvent::ClockDone(t)),
                    None => None,
                };
                (None, emit)
            },
            TuiEvent::Key(k) => {
                if self.time_edit {
                    self.entry_key(k, event)
                } else {
                    self.plain_key(k, event)
                }
            },
            _ => (Some(event), None),
        }
    }

    fn entry_key(&mut self, k: KeyCode, event: TuiEvent) -> (r: (
        Option<TuiEvent>,
        Option<AppEvent>,
    ))
        requires
            old(self).wf(),
            old(self).time_edit,
            event == TuiEvent::Key(k),
        ensures
            final(self).wf(),
            *final(self) == old(self).entry_key_state(k),
            r.0 == if old(self).entry_key_consumed(k) {
                None::<TuiEvent>
            } else {
                Some(event)
            },
            r.1 == old(self).entry_key_emit(k),
    {
        match k {
            KeyCode::Char(c) => {
                let u = c as u32;
                if 48 <= u && u <= 57 {
                    if self.entry_len < ENTRY_MAX_DIGITS {
                        let d = (u - 48) as u64;
                        self.entry_value = self.entry_value * 10 + d;
                        self.entry_len = self.entry_len + 1;
                        (None, Some(AppEvent::SetCursor(Some(self.entry_len as u16))))
                    } else {
                        (None, None)
                    }
                } else {
                    (Some(event), None)
                }
            },
            KeyCode::Enter => {
                let millis = entry_millis(self.entry_value);
                self.clock.initial_millis = millis;
                self.clock.current_millis = millis;
                self.clock.done = false;
                self.time_edit = false;
                self.entry_value = 0;
                self.entry_len = 0;
                (None, Some(AppEvent::SetCursor(None)))
            },
            KeyCode::Esc => {
                self.time_edit = false;
                self.entry_value = 0;
                self.entry_len = 0;
                (None, Some(AppEvent::SetCursor(None)))
            },
            _ => (Some(event), None),
        }
    }

    fn plain_key(&mut self, k: KeyCode, event: TuiEvent) -> (r: (
        Option<TuiEvent>,
        Option<AppEvent>,
    ))
        requires
            old(self).wf(),
            !old(self).time_edit,
            event == TuiEvent::Key(k),
        ensures
            final(self).wf(),
            *final(self) == old(self).plain_key_state(k),
            r.0 == if old(self).plain_key_consumed(k) {
                None::<TuiEvent>
            } else {
                Some(event)
            },
            r.1 == old(self).plain_key_emit(k),
    {
        let opens_entry = match k {
            KeyCode::Char(c) => c == 'i' && !self.clock.is_edit_mode(),
            _ => false,
        };
        if opens_entry {
            self.clock.running = false;
            self.time_edit = true;
            self.entry_value = 0;
            self.entry_len = 0;
            (None, Some(AppEvent::SetCursor(Some(0))))
        } else {
            let is_reset = match k {
                KeyCode::Char(c) => c == 'r',
                _ => false,
            };
            let consumed = self.clock.handle_key(k);
            if is_reset && consumed {
                self.elapsed_millis = 0;
            }
            if consumed {
                (None, None)
            } else {
                (Some(event), None)
            }
        }
    }

    pub fn set_app_time(&mut self, app_time: AppTime)
        ensures
            *final(self) == (CountdownState { app_time, ..*old(self) }),
    {
        self.app_time = app_time;
    }

    pub fn set_with_decis(&mut self, with_decis: bool)
        ensures
            *final(self) == (CountdownState {
                clock: Clock { with_decis, ..old(self).clock },
                ..*old(self)
            }),
    {
        self.clock.set_with_decis(with_decis);
    }

    pub fn is_clock_edit_mode(&self) -> (r: bool)
        ensures
            r == self.clock.edit_mode,
    {
        self.clock.is_edit_mode()
    }

    pub fn is_time_edit_mode(&self) -> (r: bool)
        ensures
            r == self.time_edit,
    {
        self.time_edit
    }

    pub fn is_running(&self) -> (r: bool)
        ensures
            r == self.clock.running,
    {
        self.clock.is_running()
    }

    pub fn get_clock(&self) -> (r: &Clock)
        ensures
            r == self.clock,
    {
        &self.clock
    }

    pub fn get_elapsed_value(&self) -> (r: u64)
        ensures
            r == self.elapsed_millis,
    {
        self.elapsed_millis
    }
}

/// Read an entry value as HHMMSS digits and convert it to
/// milliseconds.
pub fn entry_millis(v: u64) -> (r: u64)
    requires
        v < 1000000,
    ensures
        r == entry_millis_spec(v),
{
    let hh = v / 10000;
    let mm = (v / 100) % 100;
    let ss = v % 100;
    (hh * 3600 + mm * 60 + ss) * 1000
}

} // verus!
