//! The LocalTime content: shows the wall clock itself. It keeps the
//! latest snapshot and a display format; ticks are consumed without
//! touching any state of its own (the display derives from the
//! snapshot), and every other event passes through.

use vstd::prelude::*;
use crate::common::{AppTime, AppTimeFormat, Style};
use crate::events::{TuiEvent};

verus! {

/// Character cells one large digit occupies.
pub const DIGIT_WIDTH: u16 = 6;

/// Character cells between two digits of a group.
pub const DIGIT_SPACE_WIDTH: u16 = 2;

/// Character cells a colon separator occupies.
pub const COLON_WIDTH: u16 = 6;

/// Rows a large digit occupies.
pub const DIGIT_HEIGHT: u16 = 5;

/// Character cells the AM/PM period marker occupies.
pub const PERIOD_WIDTH: u16 = 2;

/// State for the local-time screen.
pub struct LocalTimeState {
    pub time: AppTime,
    pub format: AppTimeFormat,
}

pub struct LocalTimeStateArgs {
    pub app_time: AppTime,
    pub app_time_format: AppTimeFormat,
}

impl LocalTimeState {
    /// The state [`LocalTimeState::new`] builds.
    pub open spec fn new_spec(args: LocalTimeStateArgs) -> LocalTimeState {
        LocalTimeState { time: args.app_time, format: args.app_time_format }
    }

    pub fn new(args: LocalTimeStateArgs) -> (r: LocalTimeState)
        ensures
            r == LocalTimeState::new_spec(args),
            r.time == args.app_time,
            r.format == args.app_time_format,
    {
        LocalTimeState { time: args.app_time, format: args.app_time_format }
    }

    pub fn set_app_time(&mut self, app_time: AppTime)
        ensures
            *final(self) == (LocalTimeState { time: app_time, ..*old(self) }),
    {
        self.time = app_time;
    }

    pub fn set_app_time_format(&mut self, format: AppTimeFormat)
        ensures
            *final(self) == (LocalTimeState { format, ..*old(self) }),
    {
        self.format = format;
    }

    pub open spec fn update_unhandled(self, e: TuiEvent) -> Option<TuiEvent> {
        match e {
            TuiEvent::Tick => None,
            _ => Some(e),
        }
    }

    /// Consume ticks (the display derives from the snapshot alone)
    /// and pass every other event through unchanged.
    pub fn update(&mut self, event: TuiEvent) -> (r: Option<TuiEvent>)
        ensures
            *final(self) == *old(self),
            r == old(self).update_unhandled(event),
    {
        match event {
            TuiEvent::Tick => None,
            _ => Some(event),
        }
    }
}

/// The column widths of the local-time digit layout for each display
/// format.
pub open spec fn horizontal_lengths_spec(format: AppTimeFormat) -> Seq<u16> {
    match format {
        AppTimeFormat::HhMmSs => seq![
            DIGIT_WIDTH,
            DIGIT_SPACE_WIDTH,
            DIGIT_WIDTH,
            COLON_WIDTH,
            DIGIT_WIDTH,
            DIGIT_SPACE_WIDTH,
            DIGIT_WIDTH,
            COLON_WIDTH,
            DIGIT_WIDTH,
            DIGIT_SPACE_WIDTH,
            DIGIT_WIDTH,
        ],
        AppTimeFormat::HhMm => seq![
            DIGIT_WIDTH,
            DIGIT_SPACE_WIDTH,
            DIGIT_WIDTH,
            COLON_WIDTH,
            DIGIT_WIDTH,
            DIGIT_SPACE_WIDTH,
            DIGIT_WIDTH,
        ],
        AppTimeFormat::Hh12Mm => seq![
            (DIGIT_SPACE_WIDTH + PERIOD_WIDTH) as u16,
            DIGIT_WIDTH,
            DIGIT_SPACE_WIDTH,
            DIGIT_WIDTH,
            COLON_WIDTH,
            DIGIT_WIDTH,
            DIGIT_SPACE_WIDTH,
            DIGIT_WIDTH,
            DIGIT_SPACE_WIDTH,
            PERIOD_WIDTH,
        ],
    }
}

/// The 12-hour layout narrows to a single hour digit before ten
/// o'clock: the wide hour digit and its spacer get zero width.
pub open spec fn narrowed_h12_widths_spec(w: Seq<u16>, hours12: u64) -> Seq<u16> {
    if hours12 < 10 && w.len() >= 3 {
        w.update(1, 0u16).update(2, 0u16)
    } else {
        w
    }
}

pub fn narrow_h12_widths(w: &mut Vec<u16>, hours12: u64)
    ensures
        final(w)@ == narrowed_h12_widths_spec(old(w)@, hours12),
{
    if hours12 < 10 && w.len() >= 3 {
        w.set(1, 0);
        w.set(2, 0);
    }
}

/// The local-time screen's render parameters that the drawing layer
/// reads.
pub struct LocalTimeWidget {
    pub style: Style,
}

impl LocalTimeWidget {
    /// The column widths of the digit layout for the given format:
    /// paired digits with their spacers, colon separators, and for
    /// the 12-hour format a leading offset and the period marker.
    pub fn get_horizontal_lengths(&self, format: &AppTimeFormat) -> (r: Vec<u16>)
        ensures
            r@ == horizontal_lengths_spec(*format),
    {
        let mut v: Vec<u16> = Vec::new();
        match format {
            AppTimeFormat::HhMmSs => {
                v.push(DIGIT_WIDTH);
                v.push(DIGIT_SPACE_WIDTH);
                v.push(DIGIT_WIDTH);
                v.push(COLON_WIDTH);
                v.push(DIGIT_WIDTH);
                v.push(DIGIT_SPACE_WIDTH);
                v.push(DIGIT_WIDTH);
                v.push(COLON_WIDTH);
                v.push(DIGIT_WIDTH);
                v.push(DIGIT_SPACE_WIDTH);
                v.push(DIGIT_WIDTH);
            },
            AppTimeFormat::HhMm => {
                v.push(DIGIT_WIDTH);
                v.push(DIGIT_SPACE_WIDTH);
                v.push(DIGIT_WIDTH);
                v.push(COLON_WIDTH);
                v.push(DIGIT_WIDTH);
                v.push(DIGIT_SPACE_WIDTH);
                v.push(DIGIT_WIDTH);
            },
            AppTimeFormat::Hh12Mm => {
                v.push(DIGIT_SPACE_WIDTH + PERIOD_WIDTH);
                v.push(DIGIT_WIDTH);
                v.push(DIGIT_SPACE_WIDTH);
                v.push(DIGIT_WIDTH);
                v.push(COLON_WIDTH);
                v.push(DIGIT_WIDTH);
                v.push(DIGIT_SPACE_WIDTH);
                v.push(DIGIT_WIDTH);
                v.push(DIGIT_SPACE_WIDTH);
                v.push(PERIOD_WIDTH);
            },
        }
        proof {
            assert(v@ =~= horizontal_lengths_spec(*format));
        }
        v
    }
}

} // verus!
