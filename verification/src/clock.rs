//! The generic clock engine: a count-down or count-up timer with
//! pause, digit-level edit and completion semantics. All operations
//! are total; out-of-range movements clamp instead of failing.

use vstd::prelude::*;
use crate::common::ClockTypeId;
use crate::events::KeyCode;

verus! {

/// Milliseconds a clock advances per periodic tick in the application.
pub const TICK_VALUE_MS: u64 = 100;

/// Milliseconds per digit group used by edit-mode adjustments.
pub const MS_PER_HOUR: u64 = 3600000;
pub const MS_PER_MINUTE: u64 = 60000;
pub const MS_PER_SECOND: u64 = 1000;
pub const MS_PER_DECI: u64 = 100;

pub open spec fn sat_add_spec(a: u64, b: u64) -> u64 {
    if a + b <= u64::MAX {
        (a + b) as u64
    } else {
        u64::MAX
    }
}

pub open spec fn sat_sub_spec(a: u64, b: u64) -> u64 {
    if a >= b {
        (a - b) as u64
    } else {
        0
    }
}

pub fn sat_add(a: u64, b: u64) -> (r: u64)
    ensures
        r == sat_add_spec(a, b),
{
    if a <= u64::MAX - b {
        a + b
    } else {
        u64::MAX
    }
}

pub fn sat_sub(a: u64, b: u64) -> (r: u64)
    ensures
        r == sat_sub_spec(a, b),
{
    if a >= b {
        a - b
    } else {
        0
    }
}

/// Whether the clock counts toward zero or away from zero.
#[derive(Clone, Copy, Debug, PartialEq, Eq, Structural)]
pub enum ClockDirection {
    CountDown,
    CountUp,
}

/// The digit group selected by the edit cursor.
#[derive(Clone, Copy, Debug, PartialEq, Eq, Structural)]
pub enum EditGroup {
    Hours,
    Minutes,
    Seconds,
    Decis,
}

impl EditGroup {
    pub open spec fn next_spec(self) -> EditGroup {
        match self {
            EditGroup::Hours => EditGroup::Minutes,
            EditGroup::Minutes => EditGroup::Seconds,
            EditGroup::Seconds => EditGroup::Decis,
            EditGroup::Decis => EditGroup::Hours,
        }
    }

    pub open spec fn prev_spec(self) -> EditGroup {
        match self {
            EditGroup::Hours => EditGroup::Decis,
            EditGroup::Minutes => EditGroup::Hours,
            EditGroup::Seconds => EditGroup::Minutes,
            EditGroup::Decis => EditGroup::Seconds,
        }
    }

    /// Milliseconds one adjustment step of this digit group is worth.
    pub open spec fn unit_spec(self) -> u64 {
        match self {
            EditGroup::Hours => MS_PER_HOUR,
            EditGroup::Minutes => MS_PER_MINUTE,
            EditGroup::Seconds => MS_PER_SECOND,
            EditGroup::Decis => MS_PER_DECI,
        }
    }

    pub fn unit(self) -> (r: u64)
        ensures
            r == self.unit_spec(),
    {
        match self {
            EditGroup::Hours => MS_PER_HOUR,
            EditGroup::Minutes => MS_PER_MINUTE,
            EditGroup::Seconds => MS_PER_SECOND,
            EditGroup::Decis => MS_PER_DECI,
        }
    }
}

/// Arguments for [`Clock::new`]. The explicit initial/current pair
/// supports resuming a persisted session.
pub struct ClockStateArgs {
    pub initial_millis: u64,
    pub current_millis: u64,
    pub tick_millis: u64,
    pub direction: ClockDirection,
    /// Whether a count-up clock has a configured maximum.
    pub has_max: bool,
    pub max_millis: u64,
    pub with_decis: bool,
    pub type_id: ClockTypeId,
}

/// The clock engine. A count-down clock moves toward zero and is done
/// when it reaches it; a count-up clock with a configured maximum is
/// done when it reaches that maximum. Crossing the bound stops the
/// clock and signals completion exactly once; `done` is cleared only
/// by `reset`.
#[derive(Clone, Copy, Debug, PartialEq, Eq, Structural)]
pub struct Clock {
    pub initial_millis: u64,
    pub current_millis: u64,
    pub tick_millis: u64,
    pub direction: ClockDirection,
    pub has_max: bool,
    pub max_millis: u64,
    pub running: bool,
    pub edit_mode: bool,
    pub edit_group: EditGroup,
    pub done: bool,
    pub with_decis: bool,
    pub type_id: ClockTypeId,
}

impl Clock {
    /// Well-formedness: edit mode excludes ticking, and a bounded
    /// count-up clock never holds a value above its maximum.
    pub open spec fn wf(self) -> bool {
        &&& self.edit_mode ==> !self.running
        &&& self.direction is CountUp && self.has_max ==> self.current_millis
            <= self.max_millis && self.initial_millis <= self.max_millis
    }

    /// Whether `v` sits on the clock's completion bound.
    pub open spec fn value_at_bound(self, v: u64) -> bool {
        match self.direction {
            ClockDirection::CountDown => v == 0,
            ClockDirection::CountUp => self.has_max && v == self.max_millis,
        }
    }

    /// A tick moves the value only while running and not editing.
    pub open spec fn ticks_now(self) -> bool {
        self.running && !self.edit_mode
    }

    /// The current value after one tick's movement, clamped to the
    /// clock's bounds.
    pub open spec fn ticked_value(self) -> u64 {
        match self.direction {
            ClockDirection::CountDown => sat_sub_spec(self.current_millis, self.tick_millis),
            ClockDirection::CountUp => if self.has_max {
                if sat_add_spec(self.current_millis, self.tick_millis) <= self.max_millis {
                    sat_add_spec(self.current_millis, self.tick_millis)
                } else {
                    self.max_millis
                }
            } else {
                sat_add_spec(self.current_millis, self.tick_millis)
            },
        }
    }

    /// Whether this tick crosses the bound for the first time.
    pub open spec fn tick_crosses(self) -> bool {
        self.ticks_now() && !self.done && self.value_at_bound(self.ticked_value())
    }

    pub open spec fn tick_state(self) -> Clock {
        if !self.ticks_now() {
            self
        } else if self.tick_crosses() {
            Clock { current_millis: self.ticked_value(), running: false, done: true, ..self }
        } else {
            Clock { current_millis: self.ticked_value(), ..self }
        }
    }

    pub open spec fn tick_signal(self) -> Option<ClockTypeId> {
        if self.tick_crosses() {
            Some(self.type_id)
        } else {
            None
        }
    }

    /// Advance by one tick. Movement happens only while running and
    /// not in edit mode; a bound crossing stops the clock, marks it
    /// done and returns the completion signal.
    pub fn tick(&mut self) -> (signal: Option<ClockTypeId>)
        ensures
            *final(self) == old(self).tick_state(),
            signal == old(self).tick_signal(),
    {
        if !(self.running && !self.edit_mode) {
            return None;
        }
        let v: u64 = match self.direction {
            ClockDirection::CountDown => sat_sub(self.current_millis, self.tick_millis),
            ClockDirection::CountUp => {
                let raw = sat_add(self.current_millis, self.tick_millis);
                if self.has_max && raw > self.max_millis {
                    self.max_millis
                } else {
                    raw
                }
            },
        };
        let at_bound: bool = match self.direction {
            ClockDirection::CountDown => v == 0,
            ClockDirection::CountUp => self.has_max && v == self.max_millis,
        };
        self.current_millis = v;
        if at_bound && !self.done {
            self.done = true;
            self.running = false;
            Some(self.type_id)
        } else {
            None
        }
    }

    pub open spec fn toggle_pause_state(self) -> Clock {
        if self.edit_mode {
            self
        } else {
            Clock { running: !self.running, ..self }
        }
    }

    /// Flip running; a no-op while in edit mode.
    pub fn toggle_pause(&mut self)
        ensures
            *final(self) == old(self).toggle_pause_state(),
    {
        if !self.edit_mode {
            self.running = !self.running;
        }
    }

    pub open spec fn enter_edit_state(self) -> Clock {
        Clock { edit_mode: true, running: false, ..self }
    }

    /// Enter edit mode; this implicitly pauses the clock.
    pub fn enter_edit(&mut self)
        ensures
            *final(self) == old(self).enter_edit_state(),
            !final(self).running,
    {
        self.edit_mode = true;
        self.running = false;
    }

    pub open spec fn exit_edit_state(self) -> Clock {
        Clock { edit_mode: false, ..self }
    }

    /// Leave edit mode. The clock does not resume on its own.
    pub fn exit_edit(&mut self)
        ensures
            *final(self) == old(self).exit_edit_state(),
    {
        self.edit_mode = false;
    }

    /// The current value after one edit adjustment of the selected
    /// digit group, clamped to the clock's bounds.
    pub open spec fn adjusted_value(self, up: bool) -> u64 {
        if up {
            match self.direction {
                ClockDirection::CountUp => if self.has_max {
                    if sat_add_spec(self.current_millis, self.edit_group.unit_spec())
                        <= self.max_millis {
                        sat_add_spec(self.current_millis, self.edit_group.unit_spec())
                    } else {
                        self.max_millis
                    }
                } else {
                    sat_add_spec(self.current_millis, self.edit_group.unit_spec())
                },
                ClockDirection::CountDown => sat_add_spec(
                    self.current_millis,
                    self.edit_group.unit_spec(),
                ),
            }
        } else {
            sat_sub_spec(self.current_millis, self.edit_group.unit_spec())
        }
    }

    pub open spec fn adjust_state(self, up: bool) -> Clock {
        if self.edit_mode && !self.running {
            Clock { current_millis: self.adjusted_value(up), ..self }
        } else {
            self
        }
    }

    /// Adjust the current value by one unit of the selected digit
    /// group. Allowed only in edit mode; in particular a no-op while
    /// the clock is running.
    pub fn edit_adjust(&mut self, up: bool)
        ensures
            *final(self) == old(self).adjust_state(up),
            old(self).running ==> *final(self) == *old(self),
    {
        if self.edit_mode && !self.running {
            let unit = self.edit_group.unit();
            let v: u64 = if up {
                let raw = sat_add(self.current_millis, unit);
                match self.direction {
                    ClockDirection::CountUp => if self.has_max && raw > self.max_millis {
                        self.max_millis
                    } else {
                        raw
                    },
                    ClockDirection::CountDown => raw,
                }
            } else {
                sat_sub(self.current_millis, unit)
            };
            self.current_millis = v;
        }
    }

    pub open spec fn edit_next_state(self) -> Clock {
        if self.edit_mode {
            Clock { edit_group: self.edit_group.next_spec(), ..self }
        } else {
            self
        }
    }

    /// Move the edit cursor to the next digit group.
    pub fn edit_next(&mut self)
        ensures
            *final(self) == old(self).edit_next_state(),
    {
        if self.edit_mode {
            self.edit_group = match self.edit_group {
                EditGroup::Hours => EditGroup::Minutes,
                EditGroup::Minutes => EditGroup::Seconds,
                EditGroup::Seconds => EditGroup::Decis,
                EditGroup::Decis => EditGroup::Hours,
            };
        }
    }

    pub open spec fn edit_prev_state(self) -> Clock {
        if self.edit_mode {
            Clock { edit_group: self.edit_group.prev_spec(), ..self }
        } else {
            self
        }
    }

    /// Move the edit cursor to the previous digit group.
    pub fn edit_prev(&mut self)
        ensures
            *final(self) == old(self).edit_prev_state(),
    {
        if self.edit_mode {
            self.edit_group = match self.edit_group {
                EditGroup::Hours => EditGroup::Decis,
                EditGroup::Minutes => EditGroup::Hours,
                EditGroup::Seconds => EditGroup::Minutes,
                EditGroup::Decis => EditGroup::Seconds,
            };
        }
    }

    pub open spec fn reset_state(self) -> Clock {
        Clock { current_millis: self.initial_millis, running: false, done: false, ..self }
    }

    /// Back to the initial value, paused, with `done` cleared.
    pub fn reset(&mut self)
        ensures
            *final(self) == old(self).reset_state(),
    {
        self.current_millis = self.initial_millis;
        self.running = false;
        self.done = false;
    }

    /// How far the clock has progressed, in whole percent, saturated
    /// to 100. `None` for an unbounded count-up clock.
    pub open spec fn percentage_spec(self) -> Option<u16> {
        match self.direction {
            ClockDirection::CountDown => if self.initial_millis == 0 {
                Some(100u16)
            } else if self.current_millis >= self.initial_millis {
                Some(0u16)
            } else {
                Some(
                    cap_100(
                        (self.initial_millis - self.current_millis) * 100
                            / (self.initial_millis as int),
                    ),
                )
            },
            ClockDirection::CountUp => if self.has_max {
                if self.max_millis == 0 {
                    Some(100u16)
                } else {
                    Some(cap_100(self.current_millis * 100 / (self.max_millis as int)))
                }
            } else {
                None
            },
        }
    }

    pub fn get_percentage_done(&self) -> (r: Option<u16>)
        ensures
            r == self.percentage_spec(),
    {
        match self.direction {
            ClockDirection::CountDown => {
                if self.initial_millis == 0 {
                    Some(100)
                } else if self.current_millis >= self.initial_millis {
                    Some(0)
                } else {
                    let diff = self.initial_millis - self.current_millis;
                    let q: u128 = (diff as u128) * 100 / (self.initial_millis as u128);
                    if q >= 100 {
                        Some(100)
                    } else {
                        Some(q as u16)
                    }
                }
            },
            ClockDirection::CountUp => {
                if self.has_max {
                    if self.max_millis == 0 {
                        Some(100)
                    } else {
                        let q: u128 = (self.current_millis as u128) * 100
                            / (self.max_millis as u128);
                        if q >= 100 {
                            Some(100)
                        } else {
                            Some(q as u16)
                        }
                    }
                } else {
                    None
                }
            },
        }
    }

    /// The clock [`Clock::new`] builds: paused, not editing, not
    /// done, with the values clamped to the configured maximum.
    pub open spec fn new_spec(args: ClockStateArgs) -> Clock {
        Clock {
            initial_millis: if args.direction is CountUp && args.has_max
                && args.initial_millis > args.max_millis {
                args.max_millis
            } else {
                args.initial_millis
            },
            current_millis: if args.direction is CountUp && args.has_max
                && args.current_millis > args.max_millis {
                args.max_millis
            } else {
                args.current_millis
            },
            tick_millis: args.tick_millis,
            direction: args.direction,
            has_max: args.has_max,
            max_millis: args.max_millis,
            running: false,
            edit_mode: false,
            edit_group: EditGroup::Seconds,
            done: false,
            with_decis: args.with_decis,
            type_id: args.type_id,
        }
    }

    /// Build a clock from an explicit initial/current pair. The
    /// current value is clamped to the configured maximum so the
    /// well-formedness invariant holds from the start.
    pub fn new(args: ClockStateArgs) -> (r: Clock)
        ensures
            r == Clock::new_spec(args),
            r.wf(),
            r.initial_millis == if args.direction is CountUp && args.has_max
                && args.initial_millis > args.max_millis {
                args.max_millis
            } else {
                args.initial_millis
            },
            r.tick_millis == args.tick_millis,
            r.direction == args.direction,
            r.has_max == args.has_max,
            r.max_millis == args.max_millis,
            r.with_decis == args.with_decis,
            r.type_id == args.type_id,
            !r.running && !r.edit_mode && !r.done,
            r.edit_group == EditGroup::Seconds,
            r.current_millis == if args.direction is CountUp && args.has_max
                && args.current_millis > args.max_millis {
                args.max_millis
            } else {
                args.current_millis
            },
    {
        let current = match args.direction {
            ClockDirection::CountUp => if args.has_max && args.current_millis > args.max_millis {
                args.max_millis
            } else {
                args.current_millis
            },
            ClockDirection::CountDown => args.current_millis,
        };
        let initial = match args.direction {
            ClockDirection::CountUp => if args.has_max && args.initial_millis > args.max_millis {
                args.max_millis
            } else {
                args.initial_millis
            },
            ClockDirection::CountDown => args.initial_millis,
        };
        Clock {
            initial_millis: initial,
            current_millis: current,
            tick_millis: args.tick_millis,
            direction: args.direction,
            has_max: args.has_max,
            max_millis: args.max_millis,
            running: false,
            edit_mode: false,
            edit_group: EditGroup::Seconds,
            done: false,
            with_decis: args.with_decis,
            type_id: args.type_id,
        }
    }

    pub fn set_with_decis(&mut self, with_decis: bool)
        ensures
            *final(self) == (Clock { with_decis, ..*old(self) }),
    {
        self.with_decis = with_decis;
    }

    pub fn is_running(&self) -> (r: bool)
        ensures
            r == self.running,
    {
        self.running
    }

    pub fn is_edit_mode(&self) -> (r: bool)
        ensures
            r == self.edit_mode,
    {
        self.edit_mode
    }

    pub fn is_done(&self) -> (r: bool)
        ensures
            r == self.done,
    {
        self.done
    }

    pub fn get_initial_value(&self) -> (r: u64)
        ensures
            r == self.initial_millis,
    {
        self.initial_millis
    }

    pub fn get_current_value(&self) -> (r: u64)
        ensures
            r == self.current_millis,
    {
        self.current_millis
    }
}

/// Saturate a non-negative mathematical percentage to the 0..=100 range.
pub open spec fn cap_100(x: int) -> u16 {
    if x >= 100 {
        100u16
    } else if x <= 0 {
        0u16
    } else {
        x as u16
    }
}

impl Clock {
    /// The clock after one key press of the shared clock key bindings.
    pub open spec fn key_state(self, k: KeyCode) -> Clock {
        if self.edit_mode {
            match k {
                KeyCode::Left => self.edit_prev_state(),
                KeyCode::Right => self.edit_next_state(),
                KeyCode::Up => self.adjust_state(true),
                KeyCode::Down => self.adjust_state(false),
                KeyCode::Esc => self.exit_edit_state(),
                KeyCode::Char(c) => if c == 'e' {
                    self.exit_edit_state()
                } else {
                    self
                },
                _ => self,
            }
        } else {
            match k {
                KeyCode::Char(c) => if c == ' ' {
                    self.toggle_pause_state()
                } else if c == 'e' {
                    self.enter_edit_state()
                } else if c == 'r' {
                    self.reset_state()
                } else {
                    self
                },
                _ => self,
            }
        }
    }

    /// Whether the shared clock key bindings consume the key. In edit
    /// mode the arrows move the cursor and adjust the value; outside
    /// it, space pauses, `e` edits and `r` resets.
    pub open spec fn key_consumed(self, k: KeyCode) -> bool {
        if self.edit_mode {
            match k {
                KeyCode::Left | KeyCode::Right | KeyCode::Up | KeyCode::Down
                    | KeyCode::Esc => true,
                KeyCode::Char(c) => c == 'e',
                _ => false,
            }
        } else {
            match k {
                KeyCode::Char(c) => c == ' ' || c == 'e' || c == 'r',
                _ => false,
            }
        }
    }

    /// Apply the shared clock key bindings; returns whether the key
    /// was consumed. Unrecognized keys leave the clock unchanged so
    /// the caller can pass them on.
    pub fn handle_key(&mut self, k: KeyCode) -> (consumed: bool)
        ensures
            *final(self) == old(self).key_state(k),
            consumed == old(self).key_consumed(k),
    {
        if self.edit_mode {
            match k {
                KeyCode::Left => {
                    self.edit_prev();
                    true
                },
                KeyCode::Right => {
                    self.edit_next();
                    true
                },
                KeyCode::Up => {
                    self.edit_adjust(true);
                    true
                },
                KeyCode::Down => {
                    self.edit_adjust(false);
                    true
                },
                KeyCode::Esc => {
                    self.exit_edit();
                    true
                },
                KeyCode::Char(c) => {
                    if c == 'e' {
                        self.exit_edit();
                        true
                    } else {
                        false
                    }
                },
                _ => false,
            }
        } else {
            match k {
                KeyCode::Char(c) => {
                    if c == ' ' {
                        self.toggle_pause();
                        true
                    } else if c == 'e' {
                        self.enter_edit();
                        true
                    } else if c == 'r' {
                        self.reset();
                        true
                    } else {
                        false
                    }
                },
                _ => false,
            }
        }
    }
}

/// While running, a tick never drives the current value outside the
/// clock's bounds: a count-down value only moves toward zero, a
/// bounded count-up value never passes its maximum. Crossing the bound
/// stops the clock, marks it done, and signals completion; a clock
/// that is already done never signals again.
pub proof fn lemma_tick_in_bounds(c: Clock)
    requires
        c.wf(),
    ensures
        c.tick_state().wf(),
        c.direction is CountDown ==> c.tick_state().current_millis <= c.current_millis,
        c.direction is CountUp && c.has_max ==> c.tick_state().current_millis <= c.max_millis,
        c.tick_signal() is Some <==> c.tick_crosses(),
        c.tick_crosses() ==> c.tick_state().done && !c.tick_state().running,
        c.done ==> c.tick_signal() is None,
{
}

/// Entering edit mode always pauses the clock, and an edit adjustment
/// while the clock is running changes nothing.
pub proof fn lemma_edit_excludes_running(c: Clock, up: bool)
    ensures
        !c.enter_edit_state().running,
        c.enter_edit_state().edit_mode,
        c.running ==> c.adjust_state(up) == c,
{
}

} // verus!
