//! The Event content: a countdown toward a target point on the local
//! timeline. Its remaining time is derived from the wall-clock
//! snapshot instead of being ticked, so it runs indefinitely and
//! never reaches Done. The target itself can be edited.

use vstd::prelude::*;
use crate::clock::{sat_add_spec, sat_sub_spec, MS_PER_MINUTE};
use crate::common::AppTime;
use crate::events::{AppEvent, KeyCode, TuiEvent};

verus! {

pub struct EventStateArgs {
    pub app_time: AppTime,
    pub target_millis: u64,
    pub with_decis: bool,
}

pub struct EventState {
    /// The target point on the local timeline, in milliseconds.
    pub target_millis: u64,
    /// Where the timeline stood when this state was created; the
    /// progress indicator measures from here.
    pub start_millis: u64,
    /// The latest wall-clock snapshot.
    pub now_millis: u64,
    pub edit: bool,
    pub with_decis: bool,
}

impl EventState {
    /// The state [`EventState::new`] builds: progress measured from
    /// the creation snapshot, not editing.
    pub open spec fn new_spec(args: EventStateArgs) -> EventState {
        EventState {
            target_millis: args.target_millis,
            start_millis: args.app_time.millis,
            now_millis: args.app_time.millis,
            edit: false,
            with_decis: args.with_decis,
        }
    }

    pub fn new(args: EventStateArgs) -> (r: EventState)
        ensures
            r == EventState::new_spec(args),
    {
        EventState {
            target_millis: args.target_millis,
            start_millis: args.app_time.millis,
            now_millis: args.app_time.millis,
            edit: false,
            with_decis: args.with_decis,
        }
    }

    /// The remaining duration, recomputed from the latest snapshot;
    /// zero once the target has passed.
    pub open spec fn remaining_spec(self) -> u64 {
        sat_sub_spec(self.target_millis, self.now_millis)
    }

    pub fn get_remaining(&self) -> (r: u64)
        ensures
            r == self.remaining_spec(),
    {
        crate::clock::sat_sub(self.target_millis, self.now_millis)
    }

    /// The state after one key press: `e` toggles target editing; in
    /// edit mode the arrows move the target by one minute, and Esc
    /// leaves; everything else is unrecognized.
    pub open spec fn key_state(self, k: KeyCode) -> EventState {
        if self.edit {
            match k {
                KeyCode::Up => EventState {
                    target_millis: sat_add_spec(self.target_millis, MS_PER_MINUTE),
                    ..self
                },
                KeyCode::Down => EventState {
                    target_millis: sat_sub_spec(self.target_millis, MS_PER_MINUTE),
                    ..self
                },
                KeyCode::Esc => EventState { edit: false, ..self },
                KeyCode::Char(c) => if c == 'e' {
                    EventState { edit: false, ..self }
                } else {
                    self
                },
                _ => self,
            }
        } else {
            match k {
                KeyCode::Char(c) => if c == 'e' {
                    EventState { edit: true, ..self }
                } else {
                    self
                },
                _ => self,
            }
        }
    }

    pub open spec fn key_consumed(self, k: KeyCode) -> bool {
        if self.edit {
            match k {
                KeyCode::Up | KeyCode::Down | KeyCode::Esc => true,
                KeyCode::Char(c) => c == 'e',
                _ => false,
            }
        } else {
            match k {
                KeyCode::Char(c) => c == 'e',
                _ => false,
            }
        }
    }

    pub open spec fn update_state(self, e: TuiEvent) -> EventState {
        match e {
            TuiEvent::Tick => self,
            TuiEvent::Key(k) => self.key_state(k),
            _ => self,
        }
    }

    pub open spec fn update_unhandled(self, e: TuiEvent) -> Option<TuiEvent> {
        match e {
            TuiEvent::Tick => None,
            TuiEvent::Key(k) => if self.key_consumed(k) {
                None
            } else {
                Some(e)
            },
            _ => Some(e),
        }
    }

    /// Feed one event to the event screen. Ticks are consumed (the
    /// remaining time is derived, not ticked, so there is never a
    /// completion signal); edit keys move the target.
    pub fn update(&mut self, event: TuiEvent) -> (r: (Option<TuiEvent>, Option<AppEvent>))
        ensures
            *final(self) == old(self).update_state(event),
            r.0 == old(self).update_unhandled(event),
            r.1 is None,
    {
        match event {
            TuiEvent::Tick => (None, None),
            TuiEvent::Key(k) => {
                let consumed: bool;
                if self.edit {
                    match k {
                        KeyCode::Up => {
                            self.target_millis = crate::clock::sat_add(
                                self.target_millis,
                                MS_PER_MINUTE,
                            );
                            consumed = true;
                        },
                        KeyCode::Down => {
                            self.target_millis = crate::clock::sat_sub(
                                self.target_millis,
                                MS_PER_MINUTE,
                            );
                            consumed = true;
                        },
                        KeyCode::Esc => {
                            self.edit = false;
                            consumed = true;
                        },
                        KeyCode::Char(c) => {
                            if c == 'e' {
                                self.edit = false;
                                consumed = true;
                            } else {
                                consumed = false;
                            }
                        },
                        _ => {
                            consumed = false;
                        },
                    }
                } else {
                    match k {
                        KeyCode::Char(c) => {
                            if c == 'e' {
                                self.edit = true;
                                consumed = true;
                            } else {
                                consumed = false;
                            }
                        },
                        _ => {
                            consumed = false;
                        },
                    }
                }
                if consumed {
                    (None, None)
                } else {
                    (Some(event), None)
                }
            },
            _ => (Some(event), None),
        }
    }

    pub open spec fn percentage_spec(self) -> u16 {
        if self.target_millis <= self.start_millis {
            100u16
        } else {
            crate::clock::cap_100(
                sat_sub_spec(self.now_millis, self.start_millis) * 100 / (
                self.target_millis - self.start_millis),
            )
        }
    }

    /// How much of the span from creation to the target has passed,
    /// in whole percent, saturated to 100.
    pub fn get_percentage_done(&self) -> (r: u16)
        ensures
            r == self.percentage_spec(),
    {
        if self.target_millis <= self.start_millis {
            100
        } else {
            let elapsed = crate::clock::sat_sub(self.now_millis, self.start_millis);
            let span = self.target_millis - self.start_millis;
            let q: u128 = (elapsed as u128) * 100 / (span as u128);
            if q >= 100 {
                100
            } else {
                q as u16
            }
        }
    }

    pub fn set_app_time(&mut self, app_time: AppTime)
        ensures
            *final(self) == (EventState { now_millis: app_time.millis, ..*old(self) }),
    {
        self.now_millis = app_time.millis;
    }

    pub fn set_with_decis(&mut self, with_decis: bool)
        ensures
            *final(self) == (EventState { with_decis, ..*old(self) }),
    {
        self.with_decis = with_decis;
    }

    pub fn is_edit_mode(&self) -> (r: bool)
        ensures
            r == self.edit,
    {
        self.edit
    }

    pub fn get_event(&self) -> (r: u64)
        ensures
            r == self.target_millis,
    {
        self.target_millis
    }
}

} // verus!
