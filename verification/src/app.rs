//! The Pomodoro state machine: planning the hours, then alternating study
//! and break phases until the planned hours run out.

use crate::clock::local_hour;
use crate::history::{RecordedAt, SessionRecord};
use crate::schedule::{
    activated, any_planned, cleared, selected, completed, empty_schedule, first_where, is_active, is_first,
    lemma_completed_in_bound, lemma_first_exists, progressed, completed_in, law_activate_earliest, schedule_wf, toggled, BlockState, Schedule, ScheduleView,
    HOURS,
};
use crate::timer::{
    new_timer, progress_of, reset_timer, started_at, ticked_at, Timer, TimerView, NANOS_PER_SEC,
};
use vstd::prelude::*;

verus! {

#[derive(Clone, Copy, Debug, PartialEq, Eq, Structural)]
pub enum PomodoroState {
    Idle,
    Studying,
    Breaking,
    Paused,
    Done,
}

#[derive(Clone, Copy, Debug, PartialEq, Eq, Structural)]
pub enum InputMode {
    /// Picking hours + configuring durations
    Setup,
    /// Timer is running (study/break/paused)
    Active,
}

/// Which duration field the user is editing
#[derive(Clone, Copy, Debug, PartialEq, Eq, Structural)]
pub enum DurationField {
    Study,
    Break,
}

/// The key of a key press, as far as the controls tell keys apart.
#[derive(Clone, Copy, Debug, PartialEq, Eq, Structural)]
pub enum Key {
    Char(char),
    Left,
    Right,
    Up,
    Down,
    Tab,
    Enter,
    Esc,
    /// Any other key; no control uses it.
    Other,
}

/// A key press: the key, and whether shift was held.
#[derive(Clone, Copy, Debug, PartialEq, Eq, Structural)]
pub struct KeyPress {
    pub code: Key,
    pub shift: bool,
}

/// What the front end owes the user after a step: the desktop notification
/// to send, and for a finished session also saving it to the history.
#[derive(Clone, Copy, Debug, PartialEq, Eq, Structural)]
pub enum Notice {
    Quiet,
    /// A study phase ran out; `cycles` study phases are complete now.
    StudyDone { cycles: u32 },
    /// A break ran out and the next planned hour began.
    BreakDone,
    /// The session is over after `cycles` study phases: notify, then save it.
    SessionDone { cycles: u32 },
}

/// The longest duration, in minutes, whose seconds still fit in a `u64`.
pub const MAX_MINUTES: u64 = 307_445_734_561_825_860;

/// Shortest and longest study phase that the duration keys set, in minutes.
pub const MIN_PHASE_MINUTES: u64 = 5;

pub const MAX_STUDY_MINUTES: u64 = 120;

pub const MAX_BREAK_MINUTES: u64 = 60;

/// The step by which the duration keys change a duration, in minutes.
pub const PHASE_STEP_MINUTES: u64 = 5;

/// The last hour of the day.
pub const LAST_HOUR: usize = 23;

pub struct App {
    pub state: PomodoroState,
    pub previous_state: PomodoroState,
    pub study_minutes: u64,
    pub break_minutes: u64,
    pub schedule: Schedule,
    pub timer: Timer,
    pub cursor: usize,
    pub mode: InputMode,
    pub editing_field: DurationField,
    pub should_quit: bool,
    pub completed_cycles: u32,
    pub tick_count: u64,
}

pub struct AppView {
    pub state: PomodoroState,
    pub previous_state: PomodoroState,
    pub study_minutes: nat,
    pub break_minutes: nat,
    pub schedule: ScheduleView,
    pub timer: TimerView,
    pub cursor: nat,
    pub mode: InputMode,
    pub editing_field: DurationField,
    pub should_quit: bool,
    pub completed_cycles: nat,
    pub tick_count: nat,
}

impl View for App {
    type V = AppView;

    open spec fn view(&self) -> AppView {
        AppView {
            state: self.state,
            previous_state: self.previous_state,
            study_minutes: self.study_minutes as nat,
            break_minutes: self.break_minutes as nat,
            schedule: self.schedule@,
            timer: self.timer@,
            cursor: self.cursor as nat,
            mode: self.mode,
            editing_field: self.editing_field,
            should_quit: self.should_quit,
            completed_cycles: self.completed_cycles as nat,
            tick_count: self.tick_count as nat,
        }
    }
}

/// A phase of `minutes` minutes, in nanoseconds.
pub open spec fn phase_nanos(minutes: nat) -> nat {
    minutes * 60 * (NANOS_PER_SEC as nat)
}

/// A timer freshly set to `minutes` and started at the clock reading `now`.
pub open spec fn started_timer(minutes: nat, now: nat) -> TimerView {
    TimerView { total: phase_nanos(minutes), remaining: phase_nanos(minutes), running: true, last_tick: now }
}

/// The app as it starts: planning, with nothing planned, the cursor on `hour`.
pub open spec fn initial_app(study: nat, brk: nat, hour: nat) -> AppView {
    AppView {
        state: PomodoroState::Idle,
        previous_state: PomodoroState::Idle,
        study_minutes: study,
        break_minutes: brk,
        schedule: empty_schedule(hour),
        timer: new_timer(phase_nanos(study)),
        cursor: hour,
        mode: InputMode::Setup,
        editing_field: DurationField::Study,
        should_quit: false,
        completed_cycles: 0,
        tick_count: 0,
    }
}

/// A study phase ends: its hour is completed and the break starts, at the
/// clock reading `now`.
pub open spec fn study_finished(a: AppView, now: nat) -> AppView {
    AppView {
        schedule: completed(a.schedule),
        completed_cycles: a.completed_cycles + 1,
        state: PomodoroState::Breaking,
        timer: started_timer(a.break_minutes, now),
        ..a
    }
}

/// A break ends: the next planned hour starts at the clock reading `now`,
/// or, with none left, the session is done.
pub open spec fn break_finished(a: AppView, now: nat) -> AppView {
    let (s, next) = activated(a.schedule);
    match next {
        Some(_) => AppView {
            schedule: s,
            state: PomodoroState::Studying,
            timer: started_timer(a.study_minutes, now),
            ..a
        },
        None => AppView { state: PomodoroState::Done, ..a },
    }
}

/// One tick of the clock, with the wall clock at `hour` and the monotonic
/// clock reading `now`; a phase that starts in this step starts at `now`.
pub open spec fn ticked(a: AppView, hour: nat, now: nat) -> (AppView, Notice) {
    let a1 = AppView {
        tick_count: a.tick_count + 1,
        schedule: ScheduleView { current_hour: hour, ..a.schedule },
        ..a
    };
    if a1.mode == InputMode::Setup {
        let a2 = if a1.state == PomodoroState::Idle {
            AppView { timer: reset_timer(a1.timer, phase_nanos(a1.study_minutes)), ..a1 }
        } else {
            a1
        };
        (a2, Notice::Quiet)
    } else {
        let (t, expired) = ticked_at(a1.timer, now);
        let a2 = AppView { timer: t, ..a1 };
        let (a3, notice) = if expired && a2.state == PomodoroState::Studying {
            let a4 = study_finished(a2, now);
            (a4, Notice::StudyDone { cycles: a4.completed_cycles as u32 })
        } else if expired && a2.state == PomodoroState::Breaking {
            let a4 = break_finished(a2, now);
            if a4.state == PomodoroState::Studying {
                (a4, Notice::BreakDone)
            } else {
                (a4, Notice::SessionDone { cycles: a4.completed_cycles as u32 })
            }
        } else {
            (a2, Notice::Quiet)
        };
        if a3.state == PomodoroState::Studying {
            (AppView { schedule: progressed(a3.schedule, progress_of(a3.timer)), ..a3 }, notice)
        } else {
            (a3, notice)
        }
    }
}

/// The cursor moves one hour left (while it can); with `select`, the hour
/// it leaves and the hour it reaches are planned where they are free, so a
/// run of such moves plans every hour passed over.
pub open spec fn moved_left(a: AppView, select: bool) -> AppView {
    let s1 = if select { selected(a.schedule, a.cursor as int) } else { a.schedule };
    if a.cursor > 0 {
        let c = (a.cursor - 1) as nat;
        AppView { cursor: c, schedule: if select { selected(s1, c as int) } else { s1 }, ..a }
    } else {
        AppView { schedule: s1, ..a }
    }
}

/// The cursor moves one hour right (while it can); with `select`, the hour
/// it leaves and the hour it reaches are planned where they are free, so a
/// run of such moves plans every hour passed over.
pub open spec fn moved_right(a: AppView, select: bool) -> AppView {
    let s1 = if select { selected(a.schedule, a.cursor as int) } else { a.schedule };
    if a.cursor < 23 {
        let c = a.cursor + 1;
        AppView { cursor: c, schedule: if select { selected(s1, c as int) } else { s1 }, ..a }
    } else {
        AppView { schedule: s1, ..a }
    }
}

pub open spec fn min_nat(x: nat, y: nat) -> nat {
    if x <= y { x } else { y }
}

/// The edited duration grows by one step, up to its longest.
pub open spec fn lengthened(a: AppView) -> AppView {
    match a.editing_field {
        DurationField::Study => AppView { study_minutes: min_nat(a.study_minutes + 5, 120), ..a },
        DurationField::Break => AppView { break_minutes: min_nat(a.break_minutes + 5, 60), ..a },
    }
}

/// `m - 5` at zero at the least, then at least 5.
pub open spec fn shortened_minutes(m: nat) -> nat {
    if m < 10 { 5 } else { (m - 5) as nat }
}

/// The edited duration shrinks by one step, down to its shortest.
pub open spec fn shortened(a: AppView) -> AppView {
    match a.editing_field {
        DurationField::Study => AppView { study_minutes: shortened_minutes(a.study_minutes), ..a },
        DurationField::Break => AppView { break_minutes: shortened_minutes(a.break_minutes), ..a },
    }
}

/// The session starts with the earliest planned hour, if one is planned,
/// at the clock reading `now`.
pub open spec fn studying_started(a: AppView, now: nat) -> AppView {
    let (s, next) = activated(a.schedule);
    match next {
        Some(_) => AppView {
            schedule: s,
            state: PomodoroState::Studying,
            timer: started_timer(a.study_minutes, now),
            mode: InputMode::Active,
            ..a
        },
        None => a,
    }
}

/// A key press while planning, the monotonic clock reading `now`.
pub open spec fn setup_step(a: AppView, k: KeyPress, now: nat) -> AppView {
    match k.code {
        Key::Char('q') | Key::Esc => AppView { should_quit: true, ..a },
        Key::Left | Key::Char('h') | Key::Char('H') => moved_left(a, k.shift || k.code == Key::Char('H')),
        Key::Right | Key::Char('l') | Key::Char('L') => moved_right(a, k.shift || k.code == Key::Char('L')),
        Key::Char(' ') => AppView { schedule: toggled(a.schedule, a.cursor as int), ..a },
        Key::Char('c') => AppView { schedule: cleared(a.schedule), ..a },
        Key::Tab => AppView {
            editing_field: match a.editing_field {
                DurationField::Study => DurationField::Break,
                DurationField::Break => DurationField::Study,
            },
            ..a
        },
        Key::Up | Key::Char('+') | Key::Char('k') => lengthened(a),
        Key::Down | Key::Char('-') | Key::Char('j') => shortened(a),
        Key::Enter | Key::Char('s') => if any_planned(a.schedule) {
            studying_started(a, now)
        } else {
            a
        },
        _ => a,
    }
}

/// Pausing a running phase, or resuming the paused one, measuring from the
/// clock reading `now`.
pub open spec fn pause_toggled(a: AppView, now: nat) -> AppView {
    match a.state {
        PomodoroState::Studying | PomodoroState::Breaking => AppView {
            previous_state: a.state,
            state: PomodoroState::Paused,
            timer: TimerView { running: false, ..a.timer },
            ..a
        },
        PomodoroState::Paused => AppView {
            state: a.previous_state,
            timer: started_at(a.timer, now),
            ..a
        },
        _ => a,
    }
}

/// The session is finished early; a study phase under way counts as done.
pub open spec fn session_finished(a: AppView) -> AppView {
    let a1 = if a.state == PomodoroState::Studying {
        AppView { schedule: completed(a.schedule), completed_cycles: a.completed_cycles + 1, ..a }
    } else {
        a
    };
    AppView { state: PomodoroState::Done, timer: TimerView { running: false, ..a1.timer }, ..a1 }
}

/// The phase under way is cut short and the next one starts at the clock
/// reading `now`.
pub open spec fn phase_skipped(a: AppView, now: nat) -> AppView {
    match a.state {
        PomodoroState::Studying => study_finished(a, now),
        PomodoroState::Breaking => break_finished(a, now),
        _ => a,
    }
}

/// Back to planning a new session, the wall clock at `hour`.
pub open spec fn app_reset(a: AppView, hour: nat) -> AppView {
    AppView {
        schedule: empty_schedule(hour),
        timer: reset_timer(a.timer, phase_nanos(a.study_minutes)),
        state: PomodoroState::Idle,
        completed_cycles: 0,
        mode: InputMode::Setup,
        ..a
    }
}

/// A key press while a session runs, the wall clock at `hour` and the
/// monotonic clock reading `now`.
pub open spec fn active_step(a: AppView, k: KeyPress, hour: nat, now: nat) -> (AppView, Notice) {
    match k.code {
        Key::Char('q') | Key::Esc => (AppView { should_quit: true, ..a }, Notice::Quiet),
        Key::Char(' ') => (pause_toggled(a, now), Notice::Quiet),
        Key::Char('f') => {
            let a1 = session_finished(a);
            (a1, Notice::SessionDone { cycles: a1.completed_cycles as u32 })
        },
        Key::Char('n') => (phase_skipped(a, now), Notice::Quiet),
        Key::Char('r') => if a.state == PomodoroState::Done {
            (app_reset(a, hour), Notice::Quiet)
        } else {
            (a, Notice::Quiet)
        },
        _ => (a, Notice::Quiet),
    }
}

/// A key press, the wall clock at `hour` and the monotonic clock reading `now`.
pub open spec fn key_step(a: AppView, k: KeyPress, hour: nat, now: nat) -> (AppView, Notice) {
    match a.mode {
        InputMode::Setup => (setup_step(a, k, now), Notice::Quiet),
        InputMode::Active => active_step(a, k, hour, now),
    }
}

/// A tick at clock reading `now` ends a study phase, and so starts a break.
pub open spec fn tick_starts_break(a: AppView, now: nat) -> bool {
    a.mode == InputMode::Active && a.state == PomodoroState::Studying && ticked_at(a.timer, now).1
}

/// The key skips a study phase, and so starts a break.
pub open spec fn key_starts_break(a: AppView, k: KeyPress) -> bool {
    a.mode == InputMode::Active && a.state == PomodoroState::Studying && k.code == Key::Char('n')
}

/// The key lengthens the break while planning.
pub open spec fn key_lengthens_break(a: AppView, k: KeyPress) -> bool {
    &&& a.mode == InputMode::Setup
    &&& a.editing_field == DurationField::Break
    &&& (k.code == Key::Up || k.code == Key::Char('+') || k.code == Key::Char('k'))
}

/// Some block of the schedule is being studied.
pub open spec fn has_active_block(s: ScheduleView) -> bool {
    exists|i: int| 0 <= i < s.blocks.len() && is_active(#[trigger] s.blocks[i])
}

/// What holds of the app between steps.
pub open spec fn app_wf(a: AppView) -> bool {
    &&& a.study_minutes <= MAX_MINUTES
    &&& a.cursor < 24
    &&& schedule_wf(a.schedule)
    &&& a.timer.remaining <= a.timer.total
    &&& a.completed_cycles == a.schedule.completed_count
    &&& (a.mode == InputMode::Setup <==> a.state == PomodoroState::Idle)
    &&& (a.state == PomodoroState::Paused ==> a.previous_state == PomodoroState::Studying
        || a.previous_state == PomodoroState::Breaking)
    &&& (a.state == PomodoroState::Studying || (a.state == PomodoroState::Paused
        && a.previous_state == PomodoroState::Studying)) ==> has_active_block(a.schedule)
    &&& (a.state == PomodoroState::Studying || a.state == PomodoroState::Breaking) ==> a.timer.running
    &&& (a.state == PomodoroState::Paused || a.state == PomodoroState::Idle) ==> !a.timer.running
}

/// The first active block of a schedule with one exists.
pub proof fn lemma_first_active(s: ScheduleView)
    requires
        has_active_block(s),
    ensures
        first_where(s.blocks, |b: BlockState| is_active(b)) is Some,
{
    let i = choose|i: int| 0 <= i < s.blocks.len() && is_active(#[trigger] s.blocks[i]);
    let p = |b: BlockState| is_active(b);
    assert(p(s.blocks[i]));
    lemma_first_exists(s.blocks, p, i);
}

impl App {
    pub open spec fn wf(&self) -> bool {
        app_wf(self@)
    }

    pub fn new(study_min: u64, break_min: u64) -> (app: App)
        requires
            study_min <= MAX_MINUTES,
        ensures
            exists|h: nat| h < 24 && app@ == initial_app(study_min as nat, break_min as nat, h),
            app.wf(),
    {
        let hour = local_hour();
        App::starting_at(study_min, break_min, hour)
    }

    /// A new app whose wall clock reads `hour`.
    pub fn starting_at(study_min: u64, break_min: u64, hour: u8) -> (app: App)
        requires
            study_min <= MAX_MINUTES,
            hour < 24,
        ensures
            app@ == initial_app(study_min as nat, break_min as nat, hour as nat),
            app.wf(),
    {
        let app = App {
            state: PomodoroState::Idle,
            previous_state: PomodoroState::Idle,
            study_minutes: study_min,
            break_minutes: break_min,
            schedule: Schedule::starting_at(hour),
            timer: Timer::new(minutes_to_nanos(study_min)),
            cursor: hour as usize,
            mode: InputMode::Setup,
            editing_field: DurationField::Study,
            should_quit: false,
            completed_cycles: 0,
            tick_count: 0,
        };
        app
    }

    /// The study phase, in nanoseconds.
    pub fn study_duration(&self) -> (d: u128)
        requires
            self.study_minutes <= MAX_MINUTES,
        ensures
            d == phase_nanos(self.study_minutes as nat),
    {
        minutes_to_nanos(self.study_minutes)
    }

    /// The break phase, in nanoseconds.
    pub fn break_duration(&self) -> (d: u128)
        requires
            self.break_minutes <= MAX_MINUTES,
        ensures
            d == phase_nanos(self.break_minutes as nat),
    {
        minutes_to_nanos(self.break_minutes)
    }

    /// One tick of the clock: reads the wall clock and the timer's clock and
    /// steps as `tick_at` does with those readings.
    pub fn handle_tick(&mut self) -> (notice: Notice)
        requires
            old(self).wf(),
            old(self).tick_count < u64::MAX,
            old(self).mode == InputMode::Active && old(self).state == PomodoroState::Studying
                ==> old(self).break_minutes <= MAX_MINUTES,
        ensures
            final(self).wf(),
            exists|hour: nat, now: nat|
                hour < 24 && now >= old(self)@.timer.last_tick
                    && (final(self)@, notice) == #[trigger] ticked(old(self)@, hour, now),
            final(self)@.timer.last_tick >= old(self)@.timer.last_tick,
    {
        let hour = local_hour();
        let now = self.timer.read_clock();
        self.tick_at(hour, now)
    }

    /// One tick of the clock with the wall clock at `hour` and the timer's
    /// clock reading `now`.
    pub fn tick_at(&mut self, hour: u8, now: u128) -> (notice: Notice)
        requires
            old(self).wf(),
            old(self).tick_count < u64::MAX,
            tick_starts_break(old(self)@, now as nat) ==> old(self).break_minutes <= MAX_MINUTES,
            hour < 24,
        ensures
            final(self).wf(),
            (final(self)@, notice) == ticked(old(self)@, hour as nat, now as nat),
    {
        self.tick_count = self.tick_count + 1;
        self.schedule.set_hour(hour);
        if self.mode == InputMode::Setup {
            // Update timer display to reflect current study duration
            if self.state == PomodoroState::Idle {
                let d = self.study_duration();
                self.timer.reset(d);
            }
            return Notice::Quiet;
        }
        let mut notice = Notice::Quiet;
        if self.timer.tick_at(now) {
            match self.state {
                PomodoroState::Studying => {
                    proof {
                        lemma_first_active(self@.schedule);
                    }
                    self.finish_study(now);
                    notice = Notice::StudyDone { cycles: self.completed_cycles };
                },
                PomodoroState::Breaking => {
                    if self.finish_break(now) {
                        notice = Notice::BreakDone;
                    } else {
                        notice = Notice::SessionDone { cycles: self.completed_cycles };
                    }
                },
                _ => {},
            }
        }
        if self.state == PomodoroState::Studying {
            let p = self.timer.progress();
            let ghost s0 = self@.schedule;
            proof {
                lemma_first_active(s0);
            }
            self.schedule.update_active_progress(p);
            proof {
                let i = first_where(s0.blocks, |b: BlockState| is_active(b))->0;
                assert(is_first(s0.blocks, |b: BlockState| is_active(b), i));
                assert(is_active(self@.schedule.blocks[i]));
            }
        }
        notice
    }

    /// The study phase is over: complete its hour and start the break.
    fn finish_study(&mut self, now: u128)
        requires
            schedule_wf(old(self)@.schedule),
            has_active_block(old(self)@.schedule),
            old(self).completed_cycles == old(self).schedule@.completed_count,
            old(self).break_minutes <= MAX_MINUTES,
        ensures
            final(self)@ == study_finished(old(self)@, now as nat),
            schedule_wf(final(self)@.schedule),
            final(self).completed_cycles == final(self).schedule@.completed_count,
    {
        proof {
            lemma_first_active(self@.schedule);
            lemma_completed_in_bound(self.schedule@.blocks);
        }
        self.schedule.complete_active();
        self.completed_cycles = self.completed_cycles + 1;
        self.state = PomodoroState::Breaking;
        let d = self.break_duration();
        self.timer.reset(d);
        self.timer.start_at(now);
    }

    /// The break is over: start the next planned hour if there is one
    /// (and return true), else the session is done.
    fn finish_break(&mut self, now: u128) -> (next: bool)
        requires
            schedule_wf(old(self)@.schedule),
            old(self).study_minutes <= MAX_MINUTES,
        ensures
            final(self)@ == break_finished(old(self)@, now as nat),
            next == (final(self).state == PomodoroState::Studying),
            schedule_wf(final(self)@.schedule),
            next ==> has_active_block(final(self)@.schedule),
    {
        match self.schedule.activate_next() {
            Some(h) => {
                assert(is_active(self.schedule@.blocks[h as int]));
                self.state = PomodoroState::Studying;
                let d = self.study_duration();
                self.timer.reset(d);
                self.timer.start_at(now);
                true
            },
            None => {
                self.state = PomodoroState::Done;
                false
            },
        }
    }

    /// A key press: reads the wall clock, which a reset needs, and the
    /// timer's clock, which starting or resuming a phase needs, and steps as
    /// `apply_key` does with those readings.
    pub fn handle_key(&mut self, key: KeyPress) -> (notice: Notice)
        requires
            old(self).wf(),
            key_starts_break(old(self)@, key) ==> old(self).break_minutes <= MAX_MINUTES,
            key_lengthens_break(old(self)@, key) ==> old(self).break_minutes + PHASE_STEP_MINUTES <= u64::MAX,
        ensures
            final(self).wf(),
            exists|hour: nat, now: nat|
                hour < 24 && now >= old(self)@.timer.last_tick
                    && (final(self)@, notice) == #[trigger] key_step(old(self)@, key, hour, now),
            final(self)@.timer.last_tick >= old(self)@.timer.last_tick,
    {
        let hour = local_hour();
        let now = self.timer.read_clock();
        self.apply_key(key, hour, now)
    }

    /// A key press with the wall clock at `hour` and the timer's clock
    /// reading `now`.
    pub fn apply_key(&mut self, key: KeyPress, hour: u8, now: u128) -> (notice: Notice)
        requires
            old(self).wf(),
            key_starts_break(old(self)@, key) ==> old(self).break_minutes <= MAX_MINUTES,
            key_lengthens_break(old(self)@, key) ==> old(self).break_minutes + PHASE_STEP_MINUTES <= u64::MAX,
            hour < 24,
        ensures
            final(self).wf(),
            (final(self)@, notice) == key_step(old(self)@, key, hour as nat, now as nat),
    {
        match self.mode {
            InputMode::Setup => {
                self.handle_setup_key(key, now);
                Notice::Quiet
            },
            InputMode::Active => self.handle_active_key(key, hour, now),
        }
    }

    fn handle_setup_key(&mut self, key: KeyPress, now: u128)
        requires
            old(self).wf(),
            key_lengthens_break(old(self)@, key) ==> old(self).break_minutes + PHASE_STEP_MINUTES <= u64::MAX,
            old(self).mode == InputMode::Setup,
        ensures
            final(self).wf(),
            final(self)@ == setup_step(old(self)@, key, now as nat),
    {
        let shift = key.shift;
        match key.code {
            Key::Char('q') | Key::Esc => {
                self.should_quit = true;
            },
            // Navigate schedule (shift = move + toggle)
            Key::Left | Key::Char('h') | Key::Char('H') => {
                let select = shift || key.code == Key::Char('H');
                if select {
                    self.schedule.select_block(self.cursor);
                }
                if self.cursor > 0 {
                    self.cursor = self.cursor - 1;
                    if select {
                        self.schedule.select_block(self.cursor);
                    }
                }
            },
            Key::Right | Key::Char('l') | Key::Char('L') => {
                let select = shift || key.code == Key::Char('L');
                if select {
                    self.schedule.select_block(self.cursor);
                }
                if self.cursor < LAST_HOUR {
                    self.cursor = self.cursor + 1;
                    if select {
                        self.schedule.select_block(self.cursor);
                    }
                }
            },
            // Toggle single hour block
            Key::Char(' ') => {
                self.schedule.toggle_block(self.cursor);
            },
            // Clear all planned blocks
            Key::Char('c') => {
                self.schedule.clear_all();
            },
            // Switch which duration field to edit
            Key::Tab => {
                self.editing_field = match self.editing_field {
                    DurationField::Study => DurationField::Break,
                    DurationField::Break => DurationField::Study,
                };
            },
            // Adjust duration up
            Key::Up | Key::Char('+') | Key::Char('k') => {
                match self.editing_field {
                    DurationField::Study => {
                        self.study_minutes = at_most(self.study_minutes + PHASE_STEP_MINUTES, MAX_STUDY_MINUTES);
                    },
                    DurationField::Break => {
                        self.break_minutes = at_most(self.break_minutes + PHASE_STEP_MINUTES, MAX_BREAK_MINUTES);
                    },
                }
            },
            // Adjust duration down
            Key::Down | Key::Char('-') | Key::Char('j') => {
                match self.editing_field {
                    DurationField::Study => {
                        self.study_minutes = step_down(self.study_minutes);
                    },
                    DurationField::Break => {
                        self.break_minutes = step_down(self.break_minutes);
                    },
                }
            },
            // Start session
            Key::Enter | Key::Char('s') => {
                if self.schedule.has_planned() {
                    self.start_studying(now);
                }
            },
            _ => {},
        }
    }

    fn handle_active_key(&mut self, key: KeyPress, hour: u8, now: u128) -> (notice: Notice)
        requires
            old(self).wf(),
            key_starts_break(old(self)@, key) ==> old(self).break_minutes <= MAX_MINUTES,
            old(self).mode == InputMode::Active,
            hour < 24,
        ensures
            final(self).wf(),
            (final(self)@, notice) == active_step(old(self)@, key, hour as nat, now as nat),
    {
        match key.code {
            Key::Char('q') | Key::Esc => {
                self.should_quit = true;
                Notice::Quiet
            },
            // Pause / resume
            Key::Char(' ') => {
                self.toggle_pause(now);
                Notice::Quiet
            },
            // Finish session early
            Key::Char('f') => self.finish_session(),
            // Skip current phase (jump to next)
            Key::Char('n') => {
                self.skip_phase(now);
                Notice::Quiet
            },
            // Reset everything
            Key::Char('r') => {
                if self.state == PomodoroState::Done {
                    self.reset(hour);
                }
                Notice::Quiet
            },
            _ => Notice::Quiet,
        }
    }

    fn toggle_pause(&mut self, now: u128)
        requires
            old(self).wf(),
            old(self).mode == InputMode::Active,
        ensures
            final(self).wf(),
            final(self)@ == pause_toggled(old(self)@, now as nat),
    {
        match self.state {
            PomodoroState::Studying | PomodoroState::Breaking => {
                self.previous_state = self.state;
                self.state = PomodoroState::Paused;
                self.timer.pause();
            },
            PomodoroState::Paused => {
                self.state = self.previous_state;
                self.timer.resume_at(now);
            },
            _ => {},
        }
    }

    fn start_studying(&mut self, now: u128)
        requires
            old(self).wf(),
            old(self).mode == InputMode::Setup,
        ensures
            final(self).wf(),
            final(self)@ == studying_started(old(self)@, now as nat),
    {
        match self.schedule.activate_next() {
            Some(h) => {
                assert(is_active(self.schedule@.blocks[h as int]));
                self.state = PomodoroState::Studying;
                let d = self.study_duration();
                self.timer.reset(d);
                self.timer.start_at(now);
                self.mode = InputMode::Active;
            },
            None => {},
        }
    }

    fn finish_session(&mut self) -> (notice: Notice)
        requires
            old(self).wf(),
            old(self).mode == InputMode::Active,
        ensures
            final(self).wf(),
            final(self)@ == session_finished(old(self)@),
            notice == (Notice::SessionDone { cycles: final(self).completed_cycles }),
    {
        if self.state == PomodoroState::Studying {
            proof {
                lemma_first_active(self@.schedule);
                lemma_completed_in_bound(self.schedule@.blocks);
            }
            self.schedule.complete_active();
            self.completed_cycles = self.completed_cycles + 1;
        }
        self.state = PomodoroState::Done;
        self.timer.pause();
        Notice::SessionDone { cycles: self.completed_cycles }
    }

    fn skip_phase(&mut self, now: u128)
        requires
            old(self).wf(),
            old(self).state == PomodoroState::Studying ==> old(self).break_minutes <= MAX_MINUTES,
            old(self).mode == InputMode::Active,
        ensures
            final(self).wf(),
            final(self)@ == phase_skipped(old(self)@, now as nat),
    {
        match self.state {
            PomodoroState::Studying => {
                self.finish_study(now);
            },
            PomodoroState::Breaking => {
                self.finish_break(now);
            },
            _ => {},
        }
    }

    fn reset(&mut self, hour: u8)
        requires
            old(self).wf(),
            hour < 24,
        ensures
            final(self).wf(),
            final(self)@ == app_reset(old(self)@, hour as nat),
    {
        self.schedule = Schedule::starting_at(hour);
        let d = self.study_duration();
        self.timer.reset(d);
        self.state = PomodoroState::Idle;
        self.completed_cycles = 0;
        self.mode = InputMode::Setup;
    }

    /// The record of the session for the history, dated `at`; none when no
    /// study phase was completed. The hours kept are those planned, being
    /// studied or completed.
    pub fn session_record(&self, at: RecordedAt) -> (r: Option<SessionRecord>)
        requires
            self.schedule@.blocks.len() == 24,
        ensures
            self.completed_cycles == 0 ==> r is None,
            self.completed_cycles > 0 ==> (r matches Some(rec) && rec.date == at
                && rec.study_minutes == self.study_minutes && rec.break_minutes == self.break_minutes
                && rec.cycles_completed == self.completed_cycles
                && rec.hours_planned@ == used_hours(self.schedule@.blocks)),
    {
        if self.completed_cycles == 0 {
            return None;
        }
        let mut hours: Vec<u8> = Vec::new();
        let mut i: usize = 0;
        while i < HOURS
            invariant
                self.schedule@.blocks.len() == 24,
                i <= 24,
                hours@ == used_hours(self.schedule@.blocks.take(i as int)),
            decreases 24 - i,
        {
            let ghost b = self.schedule@.blocks;
            assert(b.take(i + 1).drop_last() =~= b.take(i as int));
            if !matches!(self.schedule.block(i), BlockState::Unplanned) {
                hours.push(i as u8);
            }
            i = i + 1;
        }
        assert(self.schedule@.blocks.take(24) =~= self.schedule@.blocks);
        Some(
            SessionRecord {
                date: at,
                study_minutes: self.study_minutes,
                break_minutes: self.break_minutes,
                cycles_completed: self.completed_cycles,
                hours_planned: hours,
            },
        )
    }

    pub fn state_label(&self) -> (label: &'static str)
        ensures
            label@ == state_label_text(self.state),
    {
        match self.state {
            PomodoroState::Idle => "IDLE",
            PomodoroState::Studying => "STUDYING",
            PomodoroState::Breaking => "BREAK",
            PomodoroState::Paused => "PAUSED",
            PomodoroState::Done => "DONE",
        }
    }
}

/// The label shown under the timer for each state.
pub open spec fn state_label_text(state: PomodoroState) -> Seq<char> {
    match state {
        PomodoroState::Idle => "IDLE"@,
        PomodoroState::Studying => "STUDYING"@,
        PomodoroState::Breaking => "BREAK"@,
        PomodoroState::Paused => "PAUSED"@,
        PomodoroState::Done => "DONE"@,
    }
}

/// The hours of `b` that are not unplanned, in order.
pub open spec fn used_hours(b: Seq<BlockState>) -> Seq<u8>
    decreases b.len(),
{
    if b.len() == 0 {
        Seq::empty()
    } else if b.last() is Unplanned {
        used_hours(b.drop_last())
    } else {
        used_hours(b.drop_last()).push((b.len() - 1) as u8)
    }
}

/// `minutes` in nanoseconds.
fn minutes_to_nanos(minutes: u64) -> (d: u128)
    requires
        minutes <= MAX_MINUTES,
    ensures
        d == phase_nanos(minutes as nat),
{
    let secs = minutes * 60;
    (secs as u128) * NANOS_PER_SEC
}

fn at_most(x: u64, cap: u64) -> (r: u64)
    ensures
        r == min_nat(x as nat, cap as nat),
{
    if x <= cap { x } else { cap }
}

/// One step shorter (not below zero), but never below the shortest phase.
fn step_down(m: u64) -> (r: u64)
    ensures
        r == shortened_minutes(m as nat),
{
    let lower = if m >= PHASE_STEP_MINUTES { m - PHASE_STEP_MINUTES } else { 0 };
    if lower >= MIN_PHASE_MINUTES { lower } else { MIN_PHASE_MINUTES }
}

/// Pausing and then resuming puts a running phase back as it was (the
/// paused phase is remembered, and the timer measures from the resume);
/// resuming and then pausing again leaves a paused session as it was, but
/// for the resume reading.
pub proof fn law_pause_twice(a: AppView, paused_at: nat, resumed_at: nat)
    requires
        app_wf(a),
    ensures
        a.state == PomodoroState::Studying || a.state == PomodoroState::Breaking ==> pause_toggled(
            pause_toggled(a, paused_at),
            resumed_at,
        ) == (AppView { previous_state: a.state, timer: started_at(a.timer, resumed_at), ..a }),
        a.state == PomodoroState::Paused ==> pause_toggled(pause_toggled(a, resumed_at), paused_at) == (
        AppView { timer: TimerView { last_tick: resumed_at, ..a.timer }, ..a }),
{
}

/// Tab twice edits the same duration as before.
pub proof fn law_tab_twice(a: AppView, hour: nat, now: nat)
    requires
        a.mode == InputMode::Setup,
    ensures
        key_step(key_step(a, KeyPress { code: Key::Tab, shift: false }, hour, now).0, KeyPress { code: Key::Tab, shift: false }, hour, now)
            == (a, Notice::Quiet),
{
}

/// The duration keys keep a duration they set between its shortest and its
/// longest: study phases within 5 to 120 minutes, breaks within 5 to 60.
pub proof fn law_duration_keys_bounds(a: AppView)
    ensures
        lengthened(a).study_minutes <= 120 || a.editing_field == DurationField::Break,
        lengthened(a).break_minutes <= 60 || a.editing_field == DurationField::Study,
        shortened(a).study_minutes >= 5 || a.editing_field == DurationField::Break,
        shortened(a).break_minutes >= 5 || a.editing_field == DurationField::Study,
        a.study_minutes >= 10 && a.editing_field == DurationField::Study ==> shortened(a).study_minutes
            == a.study_minutes - 5,
{
}

/// The count of cycles is always the number of completed hours.
pub proof fn law_cycles_are_completed_hours(a: AppView)
    requires
        app_wf(a),
    ensures
        a.completed_cycles == completed_in(a.schedule.blocks),
        a.completed_cycles <= 24,
{
    lemma_completed_in_bound(a.schedule.blocks);
}

/// Skipping a study phase counts it as completed and starts the break;
/// skipping a break makes the next planned hour active and starts a fresh
/// study phase of the study length at the skip's reading, or, with no hour
/// left planned, ends the session.
pub proof fn law_skip(a: AppView, now: nat)
    requires
        app_wf(a),
    ensures
        a.state == PomodoroState::Studying ==> {
            &&& phase_skipped(a, now).completed_cycles == a.completed_cycles + 1
            &&& phase_skipped(a, now).state == PomodoroState::Breaking
            &&& phase_skipped(a, now).timer == started_timer(a.break_minutes, now)
        },
        a.state == PomodoroState::Breaking ==> (phase_skipped(a, now).state == PomodoroState::Studying
            <==> any_planned_hour(a.schedule)),
        a.state == PomodoroState::Breaking && any_planned_hour(a.schedule) ==> {
            &&& phase_skipped(a, now).timer == started_timer(a.study_minutes, now)
            &&& phase_skipped(a, now).completed_cycles == a.completed_cycles
            &&& exists|i: int|
                0 <= i < 24 && #[trigger] a.schedule.blocks[i] is Planned
                    && phase_skipped(a, now).schedule.blocks[i] is Active
        },
        a.state == PomodoroState::Breaking && !any_planned_hour(a.schedule) ==> {
            &&& phase_skipped(a, now).state == PomodoroState::Done
            &&& phase_skipped(a, now).schedule == a.schedule
        },
{
    if a.state == PomodoroState::Breaking {
        law_activate_earliest(a.schedule);
    }
}

/// Some hour is still planned (not yet studied).
pub open spec fn any_planned_hour(s: ScheduleView) -> bool {
    exists|j: int| 0 <= j < s.blocks.len() && #[trigger] s.blocks[j] is Planned
}

/// While planning, a tick sends nothing, keeps the plan and shows a fresh
/// timer of the study phase.
pub proof fn law_setup_tick(a: AppView, hour: nat, now: nat)
    requires
        app_wf(a),
        a.mode == InputMode::Setup,
    ensures
        ticked(a, hour, now).1 == Notice::Quiet,
        ticked(a, hour, now).0.schedule.blocks == a.schedule.blocks,
        ticked(a, hour, now).0.timer == reset_timer(a.timer, phase_nanos(a.study_minutes)),
        ticked(a, hour, now).0.state == PomodoroState::Idle,
{
}

/// A session ends (and asks to be saved) only into the done state, and it
/// reports the cycles completed.
pub proof fn law_session_done_notice(a: AppView, hour: nat, now: nat, k: KeyPress)
    requires
        app_wf(a),
    ensures
        ticked(a, hour, now).1 matches Notice::SessionDone { cycles } ==> ticked(a, hour, now).0.state
            == PomodoroState::Done && cycles == ticked(a, hour, now).0.completed_cycles,
        key_step(a, k, hour, now).1 matches Notice::SessionDone { cycles } ==> key_step(a, k, hour, now).0.state
            == PomodoroState::Done && cycles == key_step(a, k, hour, now).0.completed_cycles,
{
    lemma_completed_in_bound(a.schedule.blocks);
}

/// A new session after the last one was done starts over: planning,
/// nothing planned, no cycles.
pub proof fn law_reset_starts_over(a: AppView, hour: nat, now: nat)
    requires
        a.mode == InputMode::Active,
        a.state == PomodoroState::Done,
    ensures
        key_step(a, KeyPress { code: Key::Char('r'), shift: false }, hour, now).0 == (AppView {
            cursor: a.cursor,
            previous_state: a.previous_state,
            editing_field: a.editing_field,
            should_quit: a.should_quit,
            tick_count: a.tick_count,
            timer: reset_timer(a.timer, phase_nanos(a.study_minutes)),
            ..initial_app(a.study_minutes, a.break_minutes, hour)
        }),
{
}

/// The space key during a session: it pauses a running phase (remembering
/// it and keeping the time left), and a second press resumes that same
/// phase with the time left unchanged, measuring from the second press; a
/// paused session comes back paused after two presses; in the done state
/// the key changes nothing.
pub proof fn law_space_pauses_and_resumes(a: AppView, hour: nat, first: nat, second: nat)
    requires
        app_wf(a),
        a.mode == InputMode::Active,
    ensures
        a.state == PomodoroState::Studying || a.state == PomodoroState::Breaking ==> {
            let b = key_step(a, KeyPress { code: Key::Char(' '), shift: false }, hour, first).0;
            &&& b.state == PomodoroState::Paused
            &&& b.previous_state == a.state
            &&& !b.timer.running
            &&& b.timer.remaining == a.timer.remaining
            &&& key_step(b, KeyPress { code: Key::Char(' '), shift: false }, hour, second) == (
                AppView { previous_state: a.state, timer: started_at(a.timer, second), ..a },
                Notice::Quiet,
            )
        },
        a.state == PomodoroState::Paused ==> key_step(
            key_step(a, KeyPress { code: Key::Char(' '), shift: false }, hour, first).0,
            KeyPress { code: Key::Char(' '), shift: false },
            hour,
            second,
        ) == (AppView { timer: TimerView { last_tick: first, ..a.timer }, ..a }, Notice::Quiet),
        a.state == PomodoroState::Done ==> key_step(a, KeyPress { code: Key::Char(' '), shift: false }, hour, first)
            == (a, Notice::Quiet),
{
    law_pause_twice(a, first, second);
    law_pause_twice(a, second, first);
}

/// Range selection: a shifted move (or H / L) plans the hour it leaves and
/// the hour it reaches where they are free, and never unplans an hour, so a
/// run of such moves plans every hour passed over.
pub proof fn law_range_selection(a: AppView, k: KeyPress, now: nat)
    requires
        a.schedule.blocks.len() == 24,
        a.cursor < 24,
        k == (KeyPress { code: Key::Char('H'), shift: false }) || k == (KeyPress { code: Key::Left, shift: true })
            || k == (KeyPress { code: Key::Char('L'), shift: false }) || k == (KeyPress { code: Key::Right, shift: true }),
    ensures
        forall|j: int|
            0 <= j < 24 && #[trigger] a.schedule.blocks[j] is Planned ==> setup_step(a, k, now).schedule.blocks[j] is Planned,
        a.schedule.current_hour <= a.cursor && a.schedule.blocks[a.cursor as int] is Unplanned
            ==> setup_step(a, k, now).schedule.blocks[a.cursor as int] is Planned,
        a.schedule.current_hour <= setup_step(a, k, now).cursor && a.schedule.blocks[setup_step(a, k, now).cursor as int] is Unplanned
            ==> setup_step(a, k, now).schedule.blocks[setup_step(a, k, now).cursor as int] is Planned,
{
}

/// A tick never moves the timer's last clock reading back: it keeps it, or,
/// at a reading no earlier, takes that reading as its last.
pub proof fn law_tick_keeps_readings_in_order(a: AppView, hour: nat, now: nat)
    requires
        now >= a.timer.last_tick,
    ensures
        ticked(a, hour, now).0.timer.last_tick >= a.timer.last_tick,
{
}

/// A key press never moves the timer's last clock reading back: it keeps
/// it, or, at a reading no earlier, takes that reading as its last.
pub proof fn law_key_keeps_readings_in_order(a: AppView, k: KeyPress, hour: nat, now: nat)
    requires
        now >= a.timer.last_tick,
    ensures
        key_step(a, k, hour, now).0.timer.last_tick >= a.timer.last_tick,
{
}

/// A tick counts a running phase down by the time since the timer's last
/// reading (its last tick, start or resume): with less than the time left
/// gone by, the same phase goes on with that much less left and the new
/// reading as its last; when a study phase has no time left, it ends, its
/// hour counts as completed and the break starts at the new reading.
pub proof fn law_tick_counts_elapsed(a: AppView, hour: nat, now: nat)
    requires
        app_wf(a),
        a.mode == InputMode::Active,
        a.timer.running,
        a.timer.last_tick <= now,
    ensures
        now - a.timer.last_tick < a.timer.remaining ==> {
            let b = ticked(a, hour, now);
            &&& b.0.timer.remaining == a.timer.remaining - (now - a.timer.last_tick)
            &&& b.0.timer.total == a.timer.total
            &&& b.0.timer.running
            &&& b.0.timer.last_tick == now
            &&& b.0.state == a.state
            &&& b.1 == Notice::Quiet
        },
        now - a.timer.last_tick >= a.timer.remaining && a.state == PomodoroState::Studying ==> {
            let b = ticked(a, hour, now);
            &&& b.0.state == PomodoroState::Breaking
            &&& b.0.completed_cycles == a.completed_cycles + 1
            &&& b.0.timer == started_timer(a.break_minutes, now)
            &&& b.1 == Notice::StudyDone { cycles: (a.completed_cycles + 1) as u32 }
        },
{
}

/// The paused time is not counted: pausing a running phase at reading
/// `paused`, resuming it at `resumed` and ticking at `later` takes off only
/// the time from the resume to the tick, and the same phase goes on.
pub proof fn law_pause_not_counted(a: AppView, hour: nat, paused: nat, resumed: nat, later: nat)
    requires
        app_wf(a),
        a.mode == InputMode::Active,
        a.state == PomodoroState::Studying || a.state == PomodoroState::Breaking,
        a.timer.running,
        a.timer.last_tick <= paused <= resumed <= later,
        later - resumed < a.timer.remaining,
    ensures
        ({
            let space = KeyPress { code: Key::Char(' '), shift: false };
            let b = key_step(a, space, hour, paused).0;
            let c = key_step(b, space, hour, resumed).0;
            let d = ticked(c, hour, later).0;
            &&& d.state == a.state
            &&& d.timer.running
            &&& d.timer.remaining == a.timer.remaining - (later - resumed)
        }),
{
}

/// Starting the session measures from the start: a tick at `later` after
/// the start at reading `start` leaves the study length less the time since
/// the start, whatever time was spent planning.
pub proof fn law_start_counts_from_start(a: AppView, hour: nat, start: nat, later: nat)
    requires
        app_wf(a),
        a.mode == InputMode::Setup,
        any_planned_hour(a.schedule),
        start <= later,
        later - start < phase_nanos(a.study_minutes),
    ensures
        ({
            let b = key_step(a, KeyPress { code: Key::Enter, shift: false }, hour, start).0;
            let d = ticked(b, hour, later).0;
            &&& b.state == PomodoroState::Studying
            &&& d.state == PomodoroState::Studying
            &&& d.timer.total == phase_nanos(a.study_minutes)
            &&& d.timer.remaining == phase_nanos(a.study_minutes) - (later - start)
        }),
{
    law_activate_earliest(a.schedule);
    let j = choose|j: int| 0 <= j < a.schedule.blocks.len() && #[trigger] a.schedule.blocks[j] is Planned;
    assert(crate::schedule::is_planned(a.schedule.blocks[j]));
    assert(any_planned(a.schedule));
}

/// While planning, Up (or `+`, `k`) lengthens the duration being edited by
/// five minutes, to at most 120 for a study phase and 60 for a break, and
/// Down (or `-`, `j`) shortens it by five minutes, to at least 5; the other
/// duration stays as it was.
pub proof fn law_duration_keys_step(a: AppView, hour: nat, now: nat, shift: bool)
    requires
        a.mode == InputMode::Setup,
    ensures
        ({
            let up = key_step(a, KeyPress { code: Key::Up, shift }, hour, now).0;
            let down = key_step(a, KeyPress { code: Key::Down, shift }, hour, now).0;
            &&& a.editing_field == DurationField::Study ==> {
                &&& up.study_minutes == (if a.study_minutes + 5 <= 120 { a.study_minutes + 5 } else { 120 })
                &&& down.study_minutes == (if a.study_minutes >= 10 { a.study_minutes - 5 } else { 5 })
                &&& up.break_minutes == a.break_minutes
                &&& down.break_minutes == a.break_minutes
            }
            &&& a.editing_field == DurationField::Break ==> {
                &&& up.break_minutes == (if a.break_minutes + 5 <= 60 { a.break_minutes + 5 } else { 60 })
                &&& down.break_minutes == (if a.break_minutes >= 10 { a.break_minutes - 5 } else { 5 })
                &&& up.study_minutes == a.study_minutes
                &&& down.study_minutes == a.study_minutes
            }
        }),
        key_step(a, KeyPress { code: Key::Char('+'), shift }, hour, now) == key_step(a, KeyPress { code: Key::Up, shift }, hour, now),
        key_step(a, KeyPress { code: Key::Char('k'), shift }, hour, now) == key_step(a, KeyPress { code: Key::Up, shift }, hour, now),
        key_step(a, KeyPress { code: Key::Char('-'), shift }, hour, now) == key_step(a, KeyPress { code: Key::Down, shift }, hour, now),
        key_step(a, KeyPress { code: Key::Char('j'), shift }, hour, now) == key_step(a, KeyPress { code: Key::Down, shift }, hour, now),
{
}

} // verus!
