//! Shared plain data types: the content selector, display options and
//! the wall-clock snapshot threaded through the state machines.

use vstd::prelude::*;

verus! {

/// The currently selected screen. Exactly one is active at a time;
/// `next` and `prev` cycle through all five variants.
#[derive(Clone, Copy, Debug, PartialEq, Eq, Structural)]
pub enum Content {
    Countdown,
    Timer,
    Pomodoro,
    Event,
    LocalTime,
}

impl Content {
    /// The successor in the cyclic order of the five contents.
    pub open spec fn next_spec(self) -> Content {
        match self {
            Content::Countdown => Content::Timer,
            Content::Timer => Content::Pomodoro,
            Content::Pomodoro => Content::Event,
            Content::Event => Content::LocalTime,
            Content::LocalTime => Content::Countdown,
        }
    }

    /// The predecessor in the cyclic order of the five contents.
    pub open spec fn prev_spec(self) -> Content {
        match self {
            Content::Countdown => Content::LocalTime,
            Content::Timer => Content::Countdown,
            Content::Pomodoro => Content::Timer,
            Content::Event => Content::Pomodoro,
            Content::LocalTime => Content::Event,
        }
    }

    pub fn next(self) -> (r: Content)
        ensures
            r == self.next_spec(),
    {
        match self {
            Content::Countdown => Content::Timer,
            Content::Timer => Content::Pomodoro,
            Content::Pomodoro => Content::Event,
            Content::Event => Content::LocalTime,
            Content::LocalTime => Content::Countdown,
        }
    }

    pub fn prev(self) -> (r: Content)
        ensures
            r == self.prev_spec(),
    {
        match self {
            Content::Countdown => Content::LocalTime,
            Content::Timer => Content::Countdown,
            Content::Pomodoro => Content::Timer,
            Content::Event => Content::Pomodoro,
            Content::LocalTime => Content::Event,
        }
    }
}

/// Cycling through the contents is cyclic: five `next` steps return to
/// the start, and `prev` is the exact inverse of `next`.
pub proof fn lemma_content_cycle(c: Content)
    ensures
        c.next_spec().next_spec().next_spec().next_spec().next_spec() == c,
        c.next_spec().prev_spec() == c,
        c.prev_spec().next_spec() == c,
{
}

/// A two-state switch for the notification, blink and footer-time options.
#[derive(Clone, Copy, Debug, PartialEq, Eq, Structural)]
pub enum Toggle {
    On,
    Off,
}

impl Toggle {
    pub open spec fn from_bool_spec(b: bool) -> Toggle {
        if b {
            Toggle::On
        } else {
            Toggle::Off
        }
    }

    pub fn from_bool(b: bool) -> (r: Toggle)
        ensures
            r == Toggle::from_bool_spec(b),
    {
        if b {
            Toggle::On
        } else {
            Toggle::Off
        }
    }

    pub open spec fn is_on_spec(self) -> bool {
        self is On
    }

    pub fn is_on(self) -> (r: bool)
        ensures
            r == self.is_on_spec(),
    {
        match self {
            Toggle::On => true,
            Toggle::Off => false,
        }
    }
}

/// The visual style of the rendered digits; `,` cycles through them.
#[derive(Clone, Copy, Debug, PartialEq, Eq, Structural)]
pub enum Style {
    Full,
    Light,
    Medium,
    Dark,
    Cross,
}

impl Style {
    pub open spec fn next_spec(self) -> Style {
        match self {
            Style::Full => Style::Light,
            Style::Light => Style::Medium,
            Style::Medium => Style::Dark,
            Style::Dark => Style::Cross,
            Style::Cross => Style::Full,
        }
    }

    pub fn next(self) -> (r: Style)
        ensures
            r == self.next_spec(),
    {
        match self {
            Style::Full => Style::Light,
            Style::Light => Style::Medium,
            Style::Medium => Style::Dark,
            Style::Dark => Style::Cross,
            Style::Cross => Style::Full,
        }
    }
}

/// How the local wall-clock time is displayed.
#[derive(Clone, Copy, Debug, PartialEq, Eq, Structural)]
pub enum AppTimeFormat {
    HhMmSs,
    HhMm,
    Hh12Mm,
}

impl AppTimeFormat {
    /// The format shown first when the footer time display is switched on.
    pub fn first() -> (r: AppTimeFormat)
        ensures
            r == AppTimeFormat::HhMmSs,
    {
        AppTimeFormat::HhMmSs
    }

    /// The last format before the footer time display wraps to hidden.
    pub fn last() -> (r: AppTimeFormat)
        ensures
            r == AppTimeFormat::Hh12Mm,
    {
        AppTimeFormat::Hh12Mm
    }

    pub open spec fn next_spec(self) -> AppTimeFormat {
        match self {
            AppTimeFormat::HhMmSs => AppTimeFormat::HhMm,
            AppTimeFormat::HhMm => AppTimeFormat::Hh12Mm,
            AppTimeFormat::Hh12Mm => AppTimeFormat::HhMmSs,
        }
    }

    pub fn next(self) -> (r: AppTimeFormat)
        ensures
            r == self.next_spec(),
    {
        match self {
            AppTimeFormat::HhMmSs => AppTimeFormat::HhMm,
            AppTimeFormat::HhMm => AppTimeFormat::Hh12Mm,
            AppTimeFormat::Hh12Mm => AppTimeFormat::HhMmSs,
        }
    }
}

/// A snapshot of the wall clock, supplied from outside on every tick:
/// milliseconds on the local timeline. The state machines only ever
/// compare and subtract these values.
#[derive(Clone, Copy, Debug, PartialEq, Eq, Structural)]
pub struct AppTime {
    pub millis: u64,
}

impl AppTime {
    pub fn from_millis(millis: u64) -> (r: AppTime)
        ensures
            r.millis == millis,
    {
        AppTime { millis }
    }
}

/// Which clock family emitted a completion signal.
#[derive(Clone, Copy, Debug, PartialEq, Eq, Structural)]
pub enum ClockTypeId {
    Countdown,
    Timer,
    Work,
    Pause,
}

/// The edit sub-state the active content is in, as shown by the footer.
#[derive(Clone, Copy, Debug, PartialEq, Eq, Structural)]
pub enum AppEditMode {
    Inactive,
    Clock,
    Time,
    Event,
}

} // verus!
