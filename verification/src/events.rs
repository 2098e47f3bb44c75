//! The event model: the merged stream's event types, and the filter
//! that turns raw terminal input into logical events. The asynchronous
//! sources themselves (periodic ticks, raw input, the internal
//! channel) live outside the crate and feed these types in.

use vstd::prelude::*;
use crate::common::ClockTypeId;

verus! {

/// A key as the state machines see it.
#[derive(Clone, Copy, Debug, PartialEq, Eq, Structural)]
pub enum KeyCode {
    Char(char),
    Left,
    Right,
    Up,
    Down,
    Enter,
    Esc,
}

/// An event from the merged terminal-side sources: a periodic tick, a
/// logical key press, a resize, some other raw input, or a failed
/// input read (which never terminates the stream).
#[derive(Clone, Copy, Debug, PartialEq, Eq, Structural)]
pub enum TuiEvent {
    Error,
    Tick,
    Key(KeyCode),
    Resize(u16, u16),
    OtherInput,
}

/// An event on the internal notification channel: a clock finished,
/// or a content asks for the terminal cursor to be placed (`None`
/// hides it). The cursor position is a column offset inside the
/// active content's entry field.
#[derive(Clone, Copy, Debug, PartialEq, Eq, Structural)]
pub enum AppEvent {
    ClockDone(ClockTypeId),
    SetCursor(Option<u16>),
}

/// One event of the merged stream.
#[derive(Clone, Copy, Debug, PartialEq, Eq, Structural)]
pub enum Event {
    Terminal(TuiEvent),
    App(AppEvent),
}

/// What a key press physically was, before filtering.
#[derive(Clone, Copy, Debug, PartialEq, Eq, Structural)]
pub enum KeyEventKind {
    Press,
    Repeat,
    Release,
}

/// Raw input as read from the terminal, before filtering.
#[derive(Clone, Copy, Debug, PartialEq, Eq, Structural)]
pub enum RawInput {
    Key(KeyCode, KeyEventKind),
    Resize(u16, u16),
    Other,
    ReadError,
}

pub open spec fn filter_raw_input_spec(r: RawInput) -> Option<TuiEvent> {
    match r {
        RawInput::Key(code, kind) => if kind is Press {
            Some(TuiEvent::Key(code))
        } else {
            None
        },
        RawInput::Resize(w, h) => Some(TuiEvent::Resize(w, h)),
        RawInput::Other => Some(TuiEvent::OtherInput),
        RawInput::ReadError => Some(TuiEvent::Error),
    }
}

/// Turn one raw input into at most one logical event: only the press
/// of a key counts (repeats and releases are dropped, so one physical
/// press yields one event), non-key input passes through unfiltered,
/// and a read failure becomes a distinguished error event.
pub fn filter_raw_input(r: RawInput) -> (e: Option<TuiEvent>)
    ensures
        e == filter_raw_input_spec(r),
{
    match r {
        RawInput::Key(code, kind) => match kind {
            KeyEventKind::Press => Some(TuiEvent::Key(code)),
            _ => None,
        },
        RawInput::Resize(w, h) => Some(TuiEvent::Resize(w, h)),
        RawInput::Other => Some(TuiEvent::OtherInput),
        RawInput::ReadError => Some(TuiEvent::Error),
    }
}

} // verus!
