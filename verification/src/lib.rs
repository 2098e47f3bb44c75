//! Core of a terminal timer application: a generic clock engine
//! (count-down / count-up with pause, edit and completion semantics),
//! five content state machines built on it, an input-event model, and
//! the application controller that dispatches events and decides on
//! redraws and side effects.
//!
//! Everything here is a pure state machine: the asynchronous event
//! sources, the terminal and the notification sinks live outside and
//! talk to this crate through plain values.

pub mod common;
pub mod events;
pub mod clock;
pub mod duration;
pub mod countdown;
pub mod timer;
pub mod pomodoro;
pub mod schedule;
pub mod local_time;
pub mod app;
