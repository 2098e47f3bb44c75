//! The application controller: owns the five content states, the
//! global key bindings and the display options, and for every event
//! of the merged stream decides the state transition, whether to
//! redraw, and which side effects to request. The run loop around it
//! lives outside the crate: it pulls events, performs the requested
//! effects, and feeds emitted internal events back in.

use vstd::prelude::*;
use crate::clock::{Clock, ClockDirection, ClockStateArgs, TICK_VALUE_MS};
use crate::common::{
    AppEditMode, AppTime, AppTimeFormat, ClockTypeId, Content, Style, Toggle,
};
use crate::countdown::{CountdownState, CountdownStateArgs};
use crate::events::{AppEvent, KeyCode, TuiEvent};
use crate::local_time::{LocalTimeState, LocalTimeStateArgs};
use crate::pomodoro::{Mode as PomodoroMode, PomodoroState, PomodoroStateArgs};
use crate::schedule::{EventState, EventStateArgs};
use crate::timer::{TimerState, TIMER_MAX_MS};

verus! {

/// Whether the application keeps running; the only way out is the
/// quit key.
#[derive(Clone, Copy, Debug, PartialEq, Eq, Structural)]
pub enum AppMode {
    Running,
    Quit,
}

/// The footer's own state: menu visibility and an optional clock-time
/// display with its format.
pub struct FooterState {
    pub show_menu: bool,
    pub app_time_format: Option<AppTimeFormat>,
}

impl FooterState {
    pub fn new(show_menu: bool, app_time_format: Option<AppTimeFormat>) -> (r: FooterState)
        ensures
            r.show_menu == show_menu,
            r.app_time_format == app_time_format,
    {
        FooterState { show_menu, app_time_format }
    }

    pub fn get_show_menu(&self) -> (r: bool)
        ensures
            r == self.show_menu,
    {
        self.show_menu
    }

    pub fn set_show_menu(&mut self, show_menu: bool)
        ensures
            *final(self) == (FooterState { show_menu, ..*old(self) }),
    {
        self.show_menu = show_menu;
    }

    pub fn get_app_time_format(&self) -> (r: Option<AppTimeFormat>)
        ensures
            r == self.app_time_format,
    {
        self.app_time_format
    }

    pub fn set_app_time_format(&mut self, format: Option<AppTimeFormat>)
        ensures
            *final(self) == (FooterState { app_time_format: format, ..*old(self) }),
    {
        self.app_time_format = format;
    }
}

/// Explicit startup overrides. A set field always wins over the
/// persisted value; a set duration additionally selects the matching
/// content and resets its progress.
pub struct Args {
    pub mode: Option<Content>,
    pub work_millis: Option<u64>,
    pub pause_millis: Option<u64>,
    pub countdown_millis: Option<u64>,
    pub event_millis: Option<u64>,
    pub decis: bool,
    pub menu: bool,
    pub notification: Option<Toggle>,
    pub blink: Option<Toggle>,
    pub style: Option<Style>,
}

/// The application snapshot as persisted across runs.
pub struct AppStorage {
    pub content: Content,
    pub show_menu: bool,
    pub notification: Toggle,
    pub blink: Toggle,
    pub app_time_format: AppTimeFormat,
    pub style: Style,
    pub with_decis: bool,
    pub pomodoro_mode: PomodoroMode,
    pub pomodoro_count: u64,
    pub initial_value_work: u64,
    pub current_value_work: u64,
    pub initial_value_pause: u64,
    pub current_value_pause: u64,
    pub initial_value_countdown: u64,
    pub current_value_countdown: u64,
    pub elapsed_value_countdown: u64,
    pub current_value_timer: u64,
    pub event_millis: u64,
    pub footer_app_time: Toggle,
}

/// Fully merged construction arguments for [`App::new`].
pub struct AppArgs {
    pub style: Style,
    pub with_decis: bool,
    pub notification: Toggle,
    pub blink: Toggle,
    pub show_menu: bool,
    pub app_time_format: AppTimeFormat,
    pub content: Content,
    pub pomodoro_mode: PomodoroMode,
    pub pomodoro_round: u64,
    pub initial_value_work: u64,
    pub current_value_work: u64,
    pub initial_value_pause: u64,
    pub current_value_pause: u64,
    pub initial_value_countdown: u64,
    pub current_value_countdown: u64,
    pub elapsed_value_countdown: u64,
    pub current_value_timer: u64,
    pub event_millis: u64,
    pub footer_toggle_app_time: Toggle,
    pub app_time: AppTime,
}

/// Startup overrides plus the persisted snapshot, to be merged with
/// the overrides winning.
pub struct FromAppArgs {
    pub args: Args,
    pub stg: AppStorage,
    pub app_time: AppTime,
}

pub struct App {
    pub content: Content,
    pub mode: AppMode,
    pub notification: Toggle,
    pub blink: Toggle,
    pub app_time: AppTime,
    pub app_time_format: AppTimeFormat,
    pub countdown: CountdownState,
    pub timer: TimerState,
    pub pomodoro: PomodoroState,
    pub event: EventState,
    pub local_time: LocalTimeState,
    pub style: Style,
    pub with_decis: bool,
    pub footer: FooterState,
    pub cursor_position: Option<u16>,
}

impl App {
    pub open spec fn wf(self) -> bool {
        &&& self.countdown.wf()
        &&& self.timer.wf()
        &&& self.pomodoro.wf()
    }

    /// The application [`App::new`] builds from merged arguments.
    pub open spec fn new_spec(args: AppArgs) -> App {
        App {
            content: args.content,
            mode: AppMode::Running,
            notification: args.notification,
            blink: args.blink,
            app_time: args.app_time,
            app_time_format: args.app_time_format,
            countdown: CountdownState::new_spec(
                CountdownStateArgs {
                    initial_millis: args.initial_value_countdown,
                    current_millis: args.current_value_countdown,
                    elapsed_millis: args.elapsed_value_countdown,
                    tick_millis: TICK_VALUE_MS,
                    with_decis: args.with_decis,
                    app_time: args.app_time,
                },
            ),
            timer: TimerState {
                clock: Clock::new_spec(
                    ClockStateArgs {
                        initial_millis: 0,
                        current_millis: args.current_value_timer,
                        tick_millis: TICK_VALUE_MS,
                        direction: ClockDirection::CountUp,
                        has_max: true,
                        max_millis: TIMER_MAX_MS,
                        with_decis: args.with_decis,
                        type_id: ClockTypeId::Timer,
                    },
                ),
            },
            pomodoro: PomodoroState::new_spec(
                PomodoroStateArgs {
                    mode: args.pomodoro_mode,
                    initial_millis_work: args.initial_value_work,
                    current_millis_work: args.current_value_work,
                    initial_millis_pause: args.initial_value_pause,
                    current_millis_pause: args.current_value_pause,
                    tick_millis: TICK_VALUE_MS,
                    round: args.pomodoro_round,
                    with_decis: args.with_decis,
                },
            ),
            event: EventState::new_spec(
                EventStateArgs {
                    app_time: args.app_time,
                    target_millis: args.event_millis,
                    with_decis: args.with_decis,
                },
            ),
            local_time: LocalTimeState::new_spec(
                LocalTimeStateArgs {
                    app_time: args.app_time,
                    app_time_format: args.app_time_format,
                },
            ),
            style: args.style,
            with_decis: args.with_decis,
            footer: FooterState {
                show_menu: args.show_menu,
                app_time_format: if args.footer_toggle_app_time is On {
                    Some(args.app_time_format)
                } else {
                    None
                },
            },
            cursor_position: None,
        }
    }

    pub fn new(args: AppArgs) -> (r: App)
        ensures
            r == App::new_spec(args),
            r.wf(),
    {
        App {
            content: args.content,
            mode: AppMode::Running,
            notification: args.notification,
            blink: args.blink,
            app_time: args.app_time,
            app_time_format: args.app_time_format,
            countdown: CountdownState::new(
                CountdownStateArgs {
                    initial_millis: args.initial_value_countdown,
                    current_millis: args.current_value_countdown,
                    elapsed_millis: args.elapsed_value_countdown,
                    tick_millis: TICK_VALUE_MS,
                    with_decis: args.with_decis,
                    app_time: args.app_time,
                },
            ),
            timer: TimerState::new(
                Clock::new(
                    ClockStateArgs {
                        initial_millis: 0,
                        current_millis: args.current_value_timer,
                        tick_millis: TICK_VALUE_MS,
                        direction: ClockDirection::CountUp,
                        has_max: true,
                        max_millis: TIMER_MAX_MS,
                        with_decis: args.with_decis,
                        type_id: ClockTypeId::Timer,
                    },
                ),
            ),
            pomodoro: PomodoroState::new(
                PomodoroStateArgs {
                    mode: args.pomodoro_mode,
                    initial_millis_work: args.initial_value_work,
                    current_millis_work: args.current_value_work,
                    initial_millis_pause: args.initial_value_pause,
                    current_millis_pause: args.current_value_pause,
                    tick_millis: TICK_VALUE_MS,
                    round: args.pomodoro_round,
                    with_decis: args.with_decis,
                },
            ),
            event: EventState::new(
                EventStateArgs {
                    app_time: args.app_time,
                    target_millis: args.event_millis,
                    with_decis: args.with_decis,
                },
            ),
            local_time: LocalTimeState::new(
                LocalTimeStateArgs {
                    app_time: args.app_time,
                    app_time_format: args.app_time_format,
                },
            ),
            style: args.style,
            with_decis: args.with_decis,
            footer: FooterState::new(
                args.show_menu,
                if matches!(args.footer_toggle_app_time, Toggle::On) {
                    Some(args.app_time_format)
                } else {
                    None
                },
            ),
            cursor_position: None,
        }
    }

    /// The content the merged startup picks: an explicit selection
    /// wins; otherwise a supplied duration selects its content
    /// (work/pause before countdown before event); otherwise the
    /// persisted content stands.
    pub open spec fn merged_content(args: Args, stg: AppStorage) -> Content {
        match args.mode {
            Some(m) => m,
            None => if args.work_millis is Some || args.pause_millis is Some {
                Content::Pomodoro
            } else if args.countdown_millis is Some {
                Content::Countdown
            } else if args.event_millis is Some {
                Content::Event
            } else {
                stg.content
            },
        }
    }

    /// The merge of startup overrides and the persisted snapshot:
    /// overrides win field by field, and an override duration resets
    /// the matching current/elapsed progress.
    pub open spec fn merge_spec(f: FromAppArgs) -> AppArgs {
        AppArgs {
            style: match f.args.style {
                Some(s) => s,
                None => f.stg.style,
            },
            with_decis: f.args.decis || f.stg.with_decis,
            notification: match f.args.notification {
                Some(n) => n,
                None => f.stg.notification,
            },
            blink: match f.args.blink {
                Some(b) => b,
                None => f.stg.blink,
            },
            show_menu: f.args.menu || f.stg.show_menu,
            app_time_format: f.stg.app_time_format,
            content: App::merged_content(f.args, f.stg),
            pomodoro_mode: f.stg.pomodoro_mode,
            pomodoro_round: f.stg.pomodoro_count,
            initial_value_work: match f.args.work_millis {
                Some(w) => w,
                None => f.stg.initial_value_work,
            },
            current_value_work: match f.args.work_millis {
                Some(w) => w,
                None => f.stg.current_value_work,
            },
            initial_value_pause: match f.args.pause_millis {
                Some(p) => p,
                None => f.stg.initial_value_pause,
            },
            current_value_pause: match f.args.pause_millis {
                Some(p) => p,
                None => f.stg.current_value_pause,
            },
            initial_value_countdown: match f.args.countdown_millis {
                Some(c) => c,
                None => f.stg.initial_value_countdown,
            },
            current_value_countdown: match f.args.countdown_millis {
                Some(c) => c,
                None => f.stg.current_value_countdown,
            },
            elapsed_value_countdown: match f.args.countdown_millis {
                Some(_) => 0,
                None => f.stg.elapsed_value_countdown,
            },
            current_value_timer: f.stg.current_value_timer,
            event_millis: match f.args.event_millis {
                Some(e) => e,
                None => f.stg.event_millis,
            },
            footer_toggle_app_time: f.stg.footer_app_time,
            app_time: f.app_time,
        }
    }

    pub fn is_running(&self) -> (r: bool)
        ensures
            r == !(self.mode is Quit),
    {
        !matches!(self.mode, AppMode::Quit)
    }

    /// The edit sub-state of the active content.
    pub open spec fn edit_mode_spec(self) -> AppEditMode {
        match self.content {
            Content::Countdown => if self.countdown.clock.edit_mode {
                AppEditMode::Clock
            } else if self.countdown.time_edit {
                AppEditMode::Time
            } else {
                AppEditMode::Inactive
            },
            Content::Timer => if self.timer.clock.edit_mode {
                AppEditMode::Clock
            } else {
                AppEditMode::Inactive
            },
            Content::Pomodoro => if self.pomodoro.active_clock().edit_mode {
                AppEditMode::Clock
            } else {
                AppEditMode::Inactive
            },
            Content::Event => if self.event.edit {
                AppEditMode::Event
            } else {
                AppEditMode::Inactive
            },
            Content::LocalTime => AppEditMode::Inactive,
        }
    }

    pub fn get_edit_mode(&self) -> (r: AppEditMode)
        ensures
            r == self.edit_mode_spec(),
    {
        match self.content {
            Content::Countdown => {
                if self.countdown.is_clock_edit_mode() {
                    AppEditMode::Clock
                } else if self.countdown.is_time_edit_mode() {
                    AppEditMode::Time
                } else {
                    AppEditMode::Inactive
                }
            },
            Content::Timer => {
                if self.timer.get_clock().is_edit_mode() {
                    AppEditMode::Clock
                } else {
                    AppEditMode::Inactive
                }
            },
            Content::Pomodoro => {
                if self.pomodoro.get_clock().is_edit_mode() {
                    AppEditMode::Clock
                } else {
                    AppEditMode::Inactive
                }
            },
            Content::Event => {
                if self.event.is_edit_mode() {
                    AppEditMode::Event
                } else {
                    AppEditMode::Inactive
                }
            },
            Content::LocalTime => AppEditMode::Inactive,
        }
    }

    /// Whether the active content's clock is running: the event
    /// screen runs forever, the local-time screen has no clock.
    pub open spec fn clock_is_running_spec(self) -> bool {
        match self.content {
            Content::Countdown => self.countdown.clock.running,
            Content::Timer => self.timer.clock.running,
            Content::Pomodoro => self.pomodoro.active_clock().running,
            Content::Event => true,
            Content::LocalTime => false,
        }
    }

    pub fn clock_is_running(&self) -> (r: bool)
        ensures
            r == self.clock_is_running_spec(),
    {
        match self.content {
            Content::Countdown => self.countdown.is_running(),
            Content::Timer => self.timer.get_clock().is_running(),
            Content::Pomodoro => self.pomodoro.get_clock().is_running(),
            Content::Event => true,
            Content::LocalTime => false,
        }
    }

    /// The progress indicator of the active content, if it has one.
    pub open spec fn percentage_done_spec(self) -> Option<u16> {
        match self.content {
            Content::Countdown => self.countdown.clock.percentage_spec(),
            Content::Timer => None,
            Content::Pomodoro => self.pomodoro.active_clock().percentage_spec(),
            Content::Event => Some(self.event.percentage_spec()),
            Content::LocalTime => None,
        }
    }

    pub fn get_percentage_done(&self) -> (r: Option<u16>)
        ensures
            r == self.percentage_done_spec(),
    {
        match self.content {
            Content::Countdown => self.countdown.get_clock().get_percentage_done(),
            Content::Timer => None,
            Content::Pomodoro => self.pomodoro.get_clock().get_percentage_done(),
            Content::Event => Some(self.event.get_percentage_done()),
            Content::LocalTime => None,
        }
    }

    /// The snapshot persisted at shutdown.
    pub open spec fn storage_spec(self) -> AppStorage {
        AppStorage {
            content: self.content,
            show_menu: self.footer.show_menu,
            notification: self.notification,
            blink: self.blink,
            app_time_format: self.app_time_format,
            style: self.style,
            with_decis: self.with_decis,
            pomodoro_mode: self.pomodoro.mode,
            pomodoro_count: self.pomodoro.round,
            initial_value_work: self.pomodoro.work.initial_millis,
            current_value_work: self.pomodoro.work.current_millis,
            initial_value_pause: self.pomodoro.pause_clock.initial_millis,
            current_value_pause: self.pomodoro.pause_clock.current_millis,
            initial_value_countdown: self.countdown.clock.initial_millis,
            current_value_countdown: self.countdown.clock.current_millis,
            elapsed_value_countdown: self.countdown.elapsed_millis,
            current_value_timer: self.timer.clock.current_millis,
            event_millis: self.event.target_millis,
            footer_app_time: Toggle::from_bool_spec(self.footer.app_time_format is Some),
        }
    }

    pub fn to_storage(&self) -> (r: AppStorage)
        ensures
            r == self.storage_spec(),
    {
        AppStorage {
            content: self.content,
            show_menu: self.footer.get_show_menu(),
            notification: self.notification,
            blink: self.blink,
            app_time_format: self.app_time_format,
            style: self.style,
            with_decis: self.with_decis,
            pomodoro_mode: self.pomodoro.get_mode(),
            pomodoro_count: self.pomodoro.get_round(),
            initial_value_work: self.pomodoro.get_clock_work().get_initial_value(),
            current_value_work: self.pomodoro.get_clock_work().get_current_value(),
            initial_value_pause: self.pomodoro.get_clock_pause().get_initial_value(),
            current_value_pause: self.pomodoro.get_clock_pause().get_current_value(),
            initial_value_countdown: self.countdown.get_clock().get_initial_value(),
            current_value_countdown: self.countdown.get_clock().get_current_value(),
            elapsed_value_countdown: self.countdown.get_elapsed_value(),
            current_value_timer: self.timer.get_clock().get_current_value(),
            event_millis: self.event.get_event(),
            footer_app_time: Toggle::from_bool(
                matches!(self.footer.app_time_format, Some(_)),
            ),
        }
    }

    /// The footer's clock-time display cycles hidden, then every
    /// format in order, then hidden again.
    pub open spec fn footer_cycle(cur: Option<AppTimeFormat>) -> Option<AppTimeFormat> {
        match cur {
            None => Some(AppTimeFormat::HhMmSs),
            Some(v) => if v != AppTimeFormat::Hh12Mm {
                Some(v.next_spec())
            } else {
                None
            },
        }
    }

    /// The state after the time-format key: while the local-time
    /// screen is active it simply cycles the format, keeping the
    /// footer in step only if the footer shows the time; elsewhere it
    /// cycles the footer display through every format and hidden.
    pub open spec fn format_key_state(self) -> App {
        if self.content == Content::LocalTime {
            let f = self.app_time_format.next_spec();
            App {
                app_time_format: f,
                local_time: LocalTimeState { format: f, ..self.local_time },
                footer: FooterState {
                    app_time_format: if self.footer.app_time_format is Some {
                        Some(f)
                    } else {
                        None
                    },
                    ..self.footer
                },
                ..self
            }
        } else {
            match App::footer_cycle(self.footer.app_time_format) {
                Some(f) => App {
                    app_time_format: f,
                    local_time: LocalTimeState { format: f, ..self.local_time },
                    footer: FooterState { app_time_format: Some(f), ..self.footer },
                    ..self
                },
                None => App {
                    footer: FooterState { app_time_format: None, ..self.footer },
                    ..self
                },
            }
        }
    }

    /// The state after flipping the sub-second display, which every
    /// clock-bearing content follows.
    pub open spec fn decis_key_state(self) -> App {
        let w = !self.with_decis;
        App {
            with_decis: w,
            timer: TimerState { clock: Clock { with_decis: w, ..self.timer.clock } },
            countdown: CountdownState {
                clock: Clock { with_decis: w, ..self.countdown.clock },
                ..self.countdown
            },
            pomodoro: PomodoroState {
                work: Clock { with_decis: w, ..self.pomodoro.work },
                pause_clock: Clock { with_decis: w, ..self.pomodoro.pause_clock },
                ..self.pomodoro
            },
            event: EventState { with_decis: w, ..self.event },
            ..self
        }
    }

    /// The global key table: quit, direct content selection, content
    /// cycling, the time-format key, style cycling, the sub-second
    /// toggle, and menu visibility. Any other key changes nothing.
    pub open spec fn global_key_state(self, k: KeyCode) -> App {
        match k {
            KeyCode::Char(c) => if c == 'q' {
                App { mode: AppMode::Quit, ..self }
            } else if c == '1' || c == 'c' {
                App { content: Content::Countdown, ..self }
            } else if c == '2' || c == 't' {
                App { content: Content::Timer, ..self }
            } else if c == '3' || c == 'p' {
                App { content: Content::Pomodoro, ..self }
            } else if c == '4' {
                App { content: Content::Event, ..self }
            } else if c == '0' || c == 'l' {
                App { content: Content::LocalTime, ..self }
            } else if c == ':' {
                self.format_key_state()
            } else if c == ',' {
                App { style: self.style.next_spec(), ..self }
            } else if c == '.' {
                self.decis_key_state()
            } else if c == 'm' {
                App {
                    footer: FooterState { show_menu: !self.footer.show_menu, ..self.footer },
                    ..self
                }
            } else {
                self
            },
            KeyCode::Right => App { content: self.content.next_spec(), ..self },
            KeyCode::Left => App { content: self.content.prev_spec(), ..self },
            KeyCode::Up => App {
                footer: FooterState { show_menu: true, ..self.footer },
                ..self
            },
            KeyCode::Down => App {
                footer: FooterState { show_menu: false, ..self.footer },
                ..self
            },
            _ => self,
        }
    }

    /// Apply the time-format key.
    #[verifier::spinoff_prover]
    fn format_key(&mut self)
        ensures
            *final(self) == old(self).format_key_state(),
    {
        if self.content == Content::LocalTime {
            let f = self.app_time_format.next();
            self.app_time_format = f;
            self.local_time.set_app_time_format(f);
            if matches!(self.footer.app_time_format, Some(_)) {
                self.footer.set_app_time_format(Some(f));
            }
        } else {
            let new_format = match self.footer.get_app_time_format() {
                None => Some(AppTimeFormat::first()),
                Some(v) => {
                    if v != AppTimeFormat::last() {
                        Some(v.next())
                    } else {
                        None
                    }
                },
            };
            if let Some(f) = new_format {
                self.app_time_format = f;
                self.local_time.set_app_time_format(f);
            }
            self.footer.set_app_time_format(new_format);
        }
    }

    /// Apply the sub-second display toggle to every content.
    #[verifier::spinoff_prover]
    fn decis_key(&mut self)
        ensures
            *final(self) == old(self).decis_key_state(),
    {
        self.with_decis = !self.with_decis;
        let w = self.with_decis;
        self.timer.set_with_decis(w);
        self.countdown.set_with_decis(w);
        self.pomodoro.set_with_decis(w);
        self.event.set_with_decis(w);
    }

    /// Handle a key press that no content consumed.
    #[verifier::rlimit(100)]
    #[verifier::spinoff_prover]
    fn handle_key_event(&mut self, k: KeyCode)
        ensures
            *final(self) == old(self).global_key_state(k),
    {
        match k {
            KeyCode::Char(c) => {
                if c == 'q' {
                    self.mode = AppMode::Quit;
                } else if c == '1' || c == 'c' {
                    self.content = Content::Countdown;
                } else if c == '2' || c == 't' {
                    self.content = Content::Timer;
                } else if c == '3' || c == 'p' {
                    self.content = Content::Pomodoro;
                } else if c == '4' {
                    self.content = Content::Event;
                } else if c == '0' || c == 'l' {
                    self.content = Content::LocalTime;
                } else if c == ':' {
                    self.format_key();
                } else if c == ',' {
                    self.style = self.style.next();
                } else if c == '.' {
                    self.decis_key();
                } else if c == 'm' {
                    let shown = self.footer.get_show_menu();
                    self.footer.set_show_menu(!shown);
                }
            },
            KeyCode::Right => {
                self.content = self.content.next();
            },
            KeyCode::Left => {
                self.content = self.content.prev();
            },
            KeyCode::Up => {
                self.footer.set_show_menu(true);
            },
            KeyCode::Down => {
                self.footer.set_show_menu(false);
            },
            _ => {},
        }
    }

    /// On a tick, the cached wall-clock snapshot is refreshed first
    /// and handed to the contents that derive state from it.
    pub open spec fn refreshed(self, e: TuiEvent, now: AppTime) -> App {
        if e is Tick {
            App {
                app_time: now,
                countdown: CountdownState { app_time: now, ..self.countdown },
                local_time: LocalTimeState { time: now, ..self.local_time },
                event: EventState { now_millis: now.millis, ..self.event },
                ..self
            }
        } else {
            self
        }
    }

    /// The state after the active content consumed what it could.
    pub open spec fn content_step_state(self, e: TuiEvent) -> App {
        match self.content {
            Content::Countdown => App { countdown: self.countdown.update_state(e), ..self },
            Content::Timer => App { timer: self.timer.update_state(e), ..self },
            Content::Pomodoro => App { pomodoro: self.pomodoro.update_state(e), ..self },
            Content::Event => App { event: self.event.update_state(e), ..self },
            Content::LocalTime => self,
        }
    }

    /// What the active content hands back unconsumed.
    pub open spec fn content_unhandled(self, e: TuiEvent) -> Option<TuiEvent> {
        match self.content {
            Content::Countdown => self.countdown.update_unhandled(e),
            Content::Timer => self.timer.update_unhandled(e),
            Content::Pomodoro => self.pomodoro.update_unhandled(e),
            Content::Event => self.event.update_unhandled(e),
            Content::LocalTime => self.local_time.update_unhandled(e),
        }
    }

    /// The internal event the active content emits, if any.
    pub open spec fn content_emit(self, e: TuiEvent) -> Option<AppEvent> {
        match self.content {
            Content::Countdown => self.countdown.update_emit(e),
            Content::Timer => self.timer.update_emit(e),
            Content::Pomodoro => self.pomodoro.update_emit(e),
            Content::Event => None,
            Content::LocalTime => None,
        }
    }

    /// One full terminal-event step: refresh the snapshot on a tick,
    /// dispatch to the active content, then run an unconsumed key
    /// press through the global key table.
    pub open spec fn tui_step_state(self, e: TuiEvent, now: AppTime) -> App {
        let a1 = self.refreshed(e, now);
        let a2 = a1.content_step_state(e);
        match a1.content_unhandled(e) {
            Some(u) => match u {
                TuiEvent::Key(k) => a2.global_key_state(k),
                _ => a2,
            },
            None => a2,
        }
    }

    pub open spec fn tui_step_emit(self, e: TuiEvent, now: AppTime) -> Option<AppEvent> {
        self.refreshed(e, now).content_emit(e)
    }

    /// Redraw exactly on ticks, key presses and resizes; never on
    /// other raw input kinds.
    pub open spec fn tui_redraw(e: TuiEvent) -> bool {
        match e {
            TuiEvent::Tick | TuiEvent::Key(_) | TuiEvent::Resize(_, _) => true,
            _ => false,
        }
    }

    /// Handle one event of the merged terminal sources. Returns
    /// whether to redraw and at most one internal event to feed back
    /// into the stream.
    #[verifier::rlimit(100)]
    #[verifier::spinoff_prover]
    pub fn handle_tui_event(&mut self, event: TuiEvent, now: AppTime) -> (r: (
        bool,
        Option<AppEvent>,
    ))
        requires
            old(self).wf(),
        ensures
            final(self).wf(),
            *final(self) == old(self).tui_step_state(event, now),
            r.0 == App::tui_redraw(event),
            r.1 == old(self).tui_step_emit(event, now),
    {
        self.refresh_now(event, now);
        let (unhandled, emit) = self.content_step(event);
        if let Some(TuiEvent::Key(k)) = unhandled {
            self.handle_key_event(k);
        }
        let redraw = matches!(
            event,
            TuiEvent::Tick | TuiEvent::Key(_) | TuiEvent::Resize(_, _)
        );
        (redraw, emit)
    }

    /// Refresh the cached wall-clock snapshot on a tick.
    fn refresh_now(&mut self, event: TuiEvent, now: AppTime)
        ensures
            *final(self) == old(self).refreshed(event, now),
    {
        if matches!(event, TuiEvent::Tick) {
            self.app_time = now;
            self.countdown.set_app_time(now);
            self.local_time.set_app_time(now);
            self.event.set_app_time(now);
        }
    }

    /// Dispatch one event to the active content state machine.
    #[verifier::spinoff_prover]
    fn content_step(&mut self, event: TuiEvent) -> (r: (Option<TuiEvent>, Option<AppEvent>))
        requires
            old(self).wf(),
        ensures
            final(self).wf(),
            *final(self) == old(self).content_step_state(event),
            r.0 == old(self).content_unhandled(event),
            r.1 == old(self).content_emit(event),
    {
        match self.content {
            Content::Countdown => self.countdown.update(event),
            Content::Timer => self.timer.update(event),
            Content::Pomodoro => self.pomodoro.update(event),
            Content::Event => {
                let (u, _em) = self.event.update(event);
                (u, None)
            },
            Content::LocalTime => {
                let u = self.local_time.update(event);
                (u, None)
            },
        }
    }

    pub open spec fn app_event_state(self, e: AppEvent) -> App {
        match e {
            AppEvent::SetCursor(p) => App { cursor_position: p, ..self },
            AppEvent::ClockDone(_) => self,
        }
    }

    /// A cursor placement must show up before the next tick, so it
    /// forces a redraw; a completion notification does not.
    pub open spec fn app_event_redraw(e: AppEvent) -> bool {
        e is SetCursor
    }

    /// A completion asks for a desktop notification exactly when the
    /// notification option is on.
    pub open spec fn app_event_notify(self, e: AppEvent) -> Option<ClockTypeId> {
        match e {
            AppEvent::ClockDone(t) => if self.notification is On {
                Some(t)
            } else {
                None
            },
            AppEvent::SetCursor(_) => None,
        }
    }

    /// Handle one event of the internal channel. Returns whether to
    /// redraw and which clock, if any, to announce to the desktop
    /// notifier (a best-effort side effect performed outside).
    pub fn handle_app_event(&mut self, event: AppEvent) -> (r: (bool, Option<ClockTypeId>))
        ensures
            *final(self) == old(self).app_event_state(event),
            r.0 == App::app_event_redraw(event),
            r.1 == old(self).app_event_notify(event),
    {
        match event {
            AppEvent::ClockDone(t) => {
                let notify = if self.notification.is_on() {
                    Some(t)
                } else {
                    None
                };
                (false, notify)
            },
            AppEvent::SetCursor(p) => {
                self.cursor_position = p;
                (true, None)
            },
        }
    }

    pub fn get_cursor_position(&self) -> (r: Option<u16>)
        ensures
            r == self.cursor_position,
    {
        self.cursor_position
    }
}

impl From<FromAppArgs> for App {
    /// Merge startup overrides and the persisted snapshot, the
    /// overrides winning, and build the application from the result.
    fn from(f: FromAppArgs) -> (r: App) {
        let FromAppArgs { args, stg, app_time } = f;
        let content = match args.mode {
            Some(m) => m,
            None => {
                if args.work_millis.is_some() || args.pause_millis.is_some() {
                    Content::Pomodoro
                } else if args.countdown_millis.is_some() {
                    Content::Countdown
                } else if args.event_millis.is_some() {
                    Content::Event
                } else {
                    stg.content
                }
            },
        };
        App::new(
            AppArgs {
                style: match args.style {
                    Some(s) => s,
                    None => stg.style,
                },
                with_decis: args.decis || stg.with_decis,
                notification: match args.notification {
                    Some(n) => n,
                    None => stg.notification,
                },
                blink: match args.blink {
                    Some(b) => b,
                    None => stg.blink,
                },
                show_menu: args.menu || stg.show_menu,
                app_time_format: stg.app_time_format,
                content,
                pomodoro_mode: stg.pomodoro_mode,
                pomodoro_round: stg.pomodoro_count,
                initial_value_work: match args.work_millis {
                    Some(w) => w,
                    None => stg.initial_value_work,
                },
                current_value_work: match args.work_millis {
                    Some(w) => w,
                    None => stg.current_value_work,
                },
                initial_value_pause: match args.pause_millis {
                    Some(p) => p,
                    None => stg.initial_value_pause,
                },
                current_value_pause: match args.pause_millis {
                    Some(p) => p,
                    None => stg.current_value_pause,
                },
                initial_value_countdown: match args.countdown_millis {
                    Some(c) => c,
                    None => stg.initial_value_countdown,
                },
                current_value_countdown: match args.countdown_millis {
                    Some(c) => c,
                    None => stg.current_value_countdown,
                },
                elapsed_value_countdown: match args.countdown_millis {
                    Some(_) => 0,
                    None => stg.elapsed_value_countdown,
                },
                current_value_timer: stg.current_value_timer,
                event_millis: match args.event_millis {
                    Some(e) => e,
                    None => stg.event_millis,
                },
                footer_toggle_app_time: stg.footer_app_time,
                app_time,
            },
        )
    }
}

impl vstd::std_specs::convert::FromSpecImpl<FromAppArgs> for App {
    open spec fn obeys_from_spec() -> bool {
        true
    }

    open spec fn from_spec(f: FromAppArgs) -> App {
        App::new_spec(App::merge_spec(f))
    }
}

/// Redraw is triggered for ticks, key presses and resizes, and for no
/// other raw input kind; a pending cursor-placement notification also
/// triggers one, while a completion notification does not.
pub proof fn lemma_redraw_decision(e: TuiEvent, a: AppEvent)
    ensures
        App::tui_redraw(e) <==> (e is Tick || e is Key || e is Resize),
        App::app_event_redraw(a) <==> a is SetCursor,
{
}

} // verus!
