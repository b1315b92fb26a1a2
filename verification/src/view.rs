//! What the terminal screen shows: the pieces of text of the timer, the
//! schedule bar and the key hints, each with the colour role it is drawn in.
//! The front end lays them out and maps each role to a colour.

use crate::app::{App, AppView, DurationField, InputMode, PomodoroState};
use crate::schedule::{any_planned, BlockState};
use crate::text::{decimal, pad_left, push_decimal, push_padded};
use vstd::prelude::*;

verus! {

/// Layout mode based on available terminal width
#[derive(Clone, Copy, Debug, PartialEq, Eq, Structural)]
pub enum BarMode {
    /// 3-char blocks + "HHa" labels (needs ~96 cols)
    Wide,
    /// 2-char blocks + "HH" labels  (needs ~72 cols)
    Medium,
    /// 1-char blocks + sparse labels (needs ~48 cols)
    Compact,
    /// 1-char blocks, no labels      (needs ~26 cols)
    Tiny,
}

/// The colour role of a piece of text.
#[derive(Clone, Copy, Debug, PartialEq, Eq, Structural)]
pub enum Tone {
    /// No style of its own.
    Plain,
    /// Key hints and legend text.
    Hint,
    /// A key hint that stands out (dimmed study colour).
    HintHighlight,
    /// Secondary text.
    Dim,
    /// The cursor colour.
    Cursor,
    /// The cursor colour, bold.
    CursorBold,
    /// A free hour (and separators).
    Free,
    /// The current hour while it is free.
    FreeCurrent,
    /// A planned hour.
    Planned,
    /// The hour being studied, pulsing with the tick count.
    Pulse { tick: u64 },
    /// A completed hour: a gradient by its number among all completed.
    Completed { order: usize, total: usize },
    /// The label of the current hour (study colour, bold).
    HourCurrent,
}

/// The colour of the timer, its picture and its label.
#[derive(Clone, Copy, Debug, PartialEq, Eq, Structural)]
pub enum TimerTone {
    Idle,
    Study,
    Break,
    Paused,
}

/// A piece of text in a colour role.
pub struct Segment {
    pub text: String,
    pub tone: Tone,
}

/// The rows of the schedule bar, top to bottom; the rows that a mode or a
/// width leaves out are `None`.
pub struct ScheduleBar {
    pub config: Option<Vec<Segment>>,
    pub title: &'static str,
    pub blocks: Vec<Segment>,
    pub labels: Option<Vec<Segment>>,
    pub cursor: Option<Vec<Segment>>,
    pub legend: Vec<Segment>,
}

pub open spec fn seg_view(s: Segment) -> (Seq<char>, Tone) {
    (s.text@, s.tone)
}

pub open spec fn segs(v: Seq<Segment>) -> Seq<(Seq<char>, Tone)> {
    v.map_values(|s: Segment| seg_view(s))
}

/// Terminals at least this wide get each width's layout.
pub const WIDE_MIN_WIDTH: u16 = 96;

pub const MEDIUM_MIN_WIDTH: u16 = 72;

pub const COMPACT_MIN_WIDTH: u16 = 48;

pub open spec fn bar_mode_of(width: u16) -> BarMode {
    if width >= 96 {
        BarMode::Wide
    } else if width >= 72 {
        BarMode::Medium
    } else if width >= 48 {
        BarMode::Compact
    } else {
        BarMode::Tiny
    }
}

pub fn bar_mode(width: u16) -> (m: BarMode)
    ensures
        m == bar_mode_of(width),
{
    if width >= WIDE_MIN_WIDTH {
        BarMode::Wide
    } else if width >= MEDIUM_MIN_WIDTH {
        BarMode::Medium
    } else if width >= COMPACT_MIN_WIDTH {
        BarMode::Compact
    } else {
        BarMode::Tiny
    }
}

/// The hour on a 12-hour clock, and "a" or "p".
pub open spec fn ampm(h: nat) -> (nat, Seq<char>) {
    if h == 0 {
        (12, "a"@)
    } else if h <= 11 {
        (h, "a"@)
    } else if h == 12 {
        (12, "p"@)
    } else {
        ((h - 12) as nat, "p"@)
    }
}

/// `HHa ` / `HHp `: the 12-hour clock hour right-aligned in two places.
pub open spec fn hour_ampm_text(h: nat) -> Seq<char> {
    pad_left(decimal(ampm(h).0), 2, ' ') + ampm(h).1 + " "@
}

pub fn format_hour_ampm(h: usize) -> (s: String)
    ensures
        s@ == hour_ampm_text(h as nat),
{
    let (display, suffix) = if h == 0 {
        (12usize, "a")
    } else if h <= 11 {
        (h, "a")
    } else if h == 12 {
        (12usize, "p")
    } else {
        (h - 12, "p")
    };
    let mut s = String::new();
    push_padded(&mut s, display as u128, 2, false);
    s.append(suffix);
    s.append(" ");
    s
}

/// A key hint ` key action`.
pub open spec fn hint_text(key: Seq<char>, action: Seq<char>) -> Seq<char> {
    " "@ + key + " "@ + action
}

fn hint_piece(key: &str, action: &str, tone: Tone) -> (s: Segment)
    ensures
        seg_view(s) == (hint_text(key@, action@), tone),
{
    let mut text = String::new();
    text.append(" ");
    text.append(key);
    text.append(" ");
    text.append(action);
    assert(text@ =~= hint_text(key@, action@));
    Segment { text, tone }
}

fn piece(text: &str, tone: Tone) -> (s: Segment)
    ensures
        seg_view(s) == (text@, tone),
{
    Segment { text: String::from_str(text), tone }
}

pub open spec fn hint(key: Seq<char>, action: Seq<char>) -> (Seq<char>, Tone) {
    (hint_text(key, action), Tone::Hint)
}

pub open spec fn sep() -> (Seq<char>, Tone) {
    ("  ·"@, Tone::Free)
}

/// The key hints at the bottom of the screen.
pub open spec fn hints_of(a: AppView) -> Seq<(Seq<char>, Tone)> {
    match a.mode {
        InputMode::Setup => {
            let head = seq![
                hint("←→"@, "move"@),
                sep(),
                hint("space"@, "toggle"@),
                sep(),
                hint("H/L"@, "select range"@),
                sep(),
                hint("c"@, "clear"@),
                sep(),
                hint("↑↓"@, "duration"@),
                sep(),
                hint("tab"@, "study/break"@),
                sep(),
            ];
            let start = if any_planned(a.schedule) {
                seq![(hint_text("enter"@, "start"@), Tone::HintHighlight), sep()]
            } else {
                Seq::empty()
            };
            head + start + seq![hint("q"@, "quit"@)]
        },
        InputMode::Active => match a.state {
            PomodoroState::Studying | PomodoroState::Breaking => seq![
                hint("space"@, "pause"@),
                sep(),
                hint("n"@, "skip"@),
                sep(),
                hint("f"@, "finish"@),
                sep(),
                hint("q"@, "quit"@),
            ],
            PomodoroState::Paused => seq![
                hint("space"@, "resume"@),
                sep(),
                hint("f"@, "finish"@),
                sep(),
                hint("q"@, "quit"@),
            ],
            PomodoroState::Done => seq![hint("r"@, "new session"@), sep(), hint("q"@, "quit"@)],
            _ => seq![hint("q"@, "quit"@)],
        },
    }
}

/// The key hints for the app's mode and state.
pub fn control_hints(app: &App) -> (v: Vec<Segment>)
    ensures
        segs(v@) == hints_of(app@),
{
    let mut v: Vec<Segment> = Vec::new();
    match app.mode {
        InputMode::Setup => {
            v.push(hint_piece("←→", "move", Tone::Hint));
            v.push(piece("  ·", Tone::Free));
            v.push(hint_piece("space", "toggle", Tone::Hint));
            v.push(piece("  ·", Tone::Free));
            v.push(hint_piece("H/L", "select range", Tone::Hint));
            v.push(piece("  ·", Tone::Free));
            v.push(hint_piece("c", "clear", Tone::Hint));
            v.push(piece("  ·", Tone::Free));
            v.push(hint_piece("↑↓", "duration", Tone::Hint));
            v.push(piece("  ·", Tone::Free));
            v.push(hint_piece("tab", "study/break", Tone::Hint));
            v.push(piece("  ·", Tone::Free));
            if app.schedule.has_planned() {
                v.push(hint_piece("enter", "start", Tone::HintHighlight));
                v.push(piece("  ·", Tone::Free));
            }
            v.push(hint_piece("q", "quit", Tone::Hint));
        },
        InputMode::Active => match app.state {
            PomodoroState::Studying | PomodoroState::Breaking => {
                v.push(hint_piece("space", "pause", Tone::Hint));
                v.push(piece("  ·", Tone::Free));
                v.push(hint_piece("n", "skip", Tone::Hint));
                v.push(piece("  ·", Tone::Free));
                v.push(hint_piece("f", "finish", Tone::Hint));
                v.push(piece("  ·", Tone::Free));
                v.push(hint_piece("q", "quit", Tone::Hint));
            },
            PomodoroState::Paused => {
                v.push(hint_piece("space", "resume", Tone::Hint));
                v.push(piece("  ·", Tone::Free));
                v.push(hint_piece("f", "finish", Tone::Hint));
                v.push(piece("  ·", Tone::Free));
                v.push(hint_piece("q", "quit", Tone::Hint));
            },
            PomodoroState::Done => {
                v.push(hint_piece("r", "new session", Tone::Hint));
                v.push(piece("  ·", Tone::Free));
                v.push(hint_piece("q", "quit", Tone::Hint));
            },
            _ => {
                v.push(hint_piece("q", "quit", Tone::Hint));
            },
        },
    }
    assert(segs(v@) =~= hints_of(app@));
    v
}

/// The number of minutes followed by "min".
pub open spec fn minutes_text(m: nat) -> Seq<char> {
    decimal(m) + "min"@
}

/// The row that sets the phase lengths while planning: the edited one is
/// highlighted and marked with an arrow.
pub open spec fn duration_config_of(a: AppView) -> Seq<(Seq<char>, Tone)> {
    let study = a.editing_field == DurationField::Study;
    seq![
        ("study "@, Tone::Hint),
        (minutes_text(a.study_minutes), if study { Tone::CursorBold } else { Tone::Dim }),
        (if study { " ↕"@ } else { ""@ }, Tone::Cursor),
        ("    "@, Tone::Hint),
        ("break "@, Tone::Hint),
        (minutes_text(a.break_minutes), if !study { Tone::CursorBold } else { Tone::Dim }),
        (if !study { " ↕"@ } else { ""@ }, Tone::Cursor),
    ]
}

fn minutes_piece(m: u64, tone: Tone) -> (s: Segment)
    ensures
        seg_view(s) == (minutes_text(m as nat), tone),
{
    let mut text = String::new();
    push_decimal(&mut text, m as u128);
    text.append("min");
    assert(text@ =~= minutes_text(m as nat));
    Segment { text, tone }
}

pub fn build_duration_config(app: &App) -> (v: Vec<Segment>)
    ensures
        segs(v@) == duration_config_of(app@),
{
    let study = app.editing_field == DurationField::Study;
    let (study_tone, break_tone) = if study {
        (Tone::CursorBold, Tone::Dim)
    } else {
        (Tone::Dim, Tone::CursorBold)
    };
    let arrow = if study { " ↕" } else { "" };
    let arrow_b = if !study { " ↕" } else { "" };
    let mut v: Vec<Segment> = Vec::new();
    v.push(piece("study ", Tone::Hint));
    v.push(minutes_piece(app.study_minutes, study_tone));
    v.push(piece(arrow, Tone::Cursor));
    v.push(piece("    ", Tone::Hint));
    v.push(piece("break ", Tone::Hint));
    v.push(minutes_piece(app.break_minutes, break_tone));
    v.push(piece(arrow_b, Tone::Cursor));
    assert(segs(v@) =~= duration_config_of(app@));
    v
}

/// The characters of a filled, a free and a planned block in each mode.
pub open spec fn block_chars(mode: BarMode) -> (Seq<char>, Seq<char>, Seq<char>) {
    match mode {
        BarMode::Wide => ("███ "@, "░░░ "@, "▓▓▓ "@),
        BarMode::Medium => ("██ "@, "░░ "@, "▓▓ "@),
        BarMode::Compact => ("█ "@, "░ "@, "▓ "@),
        BarMode::Tiny => ("█"@, "░"@, "▓"@),
    }
}

/// How one hour's block is drawn.
pub open spec fn block_cell_of(block: BlockState, is_current: bool, total_completed: usize, tick: u64, mode: BarMode) -> (Seq<char>, Tone) {
    let (fill, empty, planned) = block_chars(mode);
    match block {
        BlockState::Unplanned => (empty, if is_current { Tone::FreeCurrent } else { Tone::Free }),
        BlockState::Planned => (planned, Tone::Planned),
        BlockState::Active { .. } => (fill, Tone::Pulse { tick }),
        BlockState::Completed { order } => (fill, Tone::Completed { order, total: total_completed }),
    }
}

pub fn render_block(block: &BlockState, is_current: bool, total_completed: usize, tick: u64, mode: BarMode) -> (s: Segment)
    ensures
        seg_view(s) == block_cell_of(*block, is_current, total_completed, tick, mode),
{
    let (fill, empty, planned_ch) = match mode {
        BarMode::Wide => ("███ ", "░░░ ", "▓▓▓ "),
        BarMode::Medium => ("██ ", "░░ ", "▓▓ "),
        BarMode::Compact => ("█ ", "░ ", "▓ "),
        BarMode::Tiny => ("█", "░", "▓"),
    };
    match block {
        BlockState::Unplanned => {
            let tone = if is_current { Tone::FreeCurrent } else { Tone::Free };
            piece(empty, tone)
        },
        BlockState::Planned => piece(planned_ch, Tone::Planned),
        BlockState::Active { .. } => piece(fill, Tone::Pulse { tick }),
        BlockState::Completed { order } => piece(fill, Tone::Completed { order: *order, total: total_completed }),
    }
}

pub open spec fn hour_tone(is_current: bool) -> Tone {
    if is_current { Tone::HourCurrent } else { Tone::Dim }
}

pub fn hour_style(is_current: bool) -> (t: Tone)
    ensures
        t == hour_tone(is_current),
{
    if is_current { Tone::HourCurrent } else { Tone::Dim }
}

/// The label under hour `i`, if the mode shows labels.
pub open spec fn hour_label_of(i: nat, is_current: bool, mode: BarMode) -> Option<(Seq<char>, Tone)> {
    match mode {
        BarMode::Wide => Some((hour_ampm_text(i), hour_tone(is_current))),
        BarMode::Medium => Some((pad_left(decimal(i), 2, '0') + " "@, hour_tone(is_current))),
        BarMode::Compact => if i % 3 == 0 {
            Some((pad_left(decimal(i), 2, '0'), hour_tone(is_current)))
        } else {
            Some(("  "@, Tone::Free))
        },
        BarMode::Tiny => None,
    }
}

pub fn hour_label(i: usize, is_current: bool, mode: BarMode) -> (l: Option<Segment>)
    ensures
        match l {
            Some(s) => hour_label_of(i as nat, is_current, mode) == Some(seg_view(s)),
            None => hour_label_of(i as nat, is_current, mode) is None,
        },
{
    let tone = hour_style(is_current);
    match mode {
        BarMode::Wide => Some(Segment { text: format_hour_ampm(i), tone }),
        BarMode::Medium => {
            let mut text = String::new();
            push_padded(&mut text, i as u128, 2, true);
            text.append(" ");
            Some(Segment { text, tone })
        },
        BarMode::Compact => {
            if i % 3 == 0 {
                let mut text = String::new();
                push_padded(&mut text, i as u128, 2, true);
                assert(text@ =~= pad_left(decimal(i as nat), 2, '0'));
                Some(Segment { text, tone })
            } else {
                Some(piece("  ", Tone::Free))
            }
        },
        BarMode::Tiny => None,
    }
}

/// The cell under an hour in the cursor row: the cursor, or blank.
pub open spec fn cursor_cell_of(selected: bool, mode: BarMode) -> (Seq<char>, Tone) {
    if selected {
        (match mode {
            BarMode::Wide => " ▲  "@,
            BarMode::Medium => "▲  "@,
            BarMode::Compact => "▲ "@,
            BarMode::Tiny => "▲"@,
        }, Tone::Cursor)
    } else {
        (match mode {
            BarMode::Wide => "    "@,
            BarMode::Medium => "   "@,
            BarMode::Compact => "  "@,
            BarMode::Tiny => " "@,
        }, Tone::Plain)
    }
}

pub fn cursor_cell(selected: bool, mode: BarMode) -> (s: Segment)
    ensures
        seg_view(s) == cursor_cell_of(selected, mode),
{
    let cursor_w = match mode {
        BarMode::Wide => " ▲  ",
        BarMode::Medium => "▲  ",
        BarMode::Compact => "▲ ",
        BarMode::Tiny => "▲",
    };
    let cursor_blank = match mode {
        BarMode::Wide => "    ",
        BarMode::Medium => "   ",
        BarMode::Compact => "  ",
        BarMode::Tiny => " ",
    };
    if selected {
        piece(cursor_w, Tone::Cursor)
    } else {
        piece(cursor_blank, Tone::Plain)
    }
}

/// The legend under the bar; "done" only once a cycle is completed.
pub open spec fn legend_of(a: AppView) -> Seq<(Seq<char>, Tone)> {
    let base = seq![("░"@, Tone::Free), (" free  "@, Tone::Hint), ("▓"@, Tone::Planned), (" planned  "@, Tone::Hint)];
    if a.completed_cycles > 0 {
        base + seq![("█"@, Tone::Completed { order: 0, total: 1 }), (" done"@, Tone::Hint)]
    } else {
        base
    }
}

pub fn build_legend(app: &App) -> (v: Vec<Segment>)
    ensures
        segs(v@) == legend_of(app@),
{
    let mut v: Vec<Segment> = Vec::new();
    v.push(piece("░", Tone::Free));
    v.push(piece(" free  ", Tone::Hint));
    v.push(piece("▓", Tone::Planned));
    v.push(piece(" planned  ", Tone::Hint));
    if app.completed_cycles > 0 {
        v.push(piece("█", Tone::Completed { order: 0, total: 1 }));
        v.push(piece(" done", Tone::Hint));
    }
    assert(segs(v@) =~= legend_of(app@));
    v
}

/// The title over the bar.
pub open spec fn bar_title_of(mode: InputMode) -> Seq<char> {
    if mode == InputMode::Setup { "select your study hours"@ } else { "schedule"@ }
}

/// The schedule bar for a terminal `width` columns wide.
pub open spec fn schedule_bar_ok(a: AppView, width: u16, bar: ScheduleBar) -> bool {
    let mode = bar_mode_of(width);
    let setup = a.mode == InputMode::Setup;
    &&& (bar.config matches Some(c) ==> segs(c@) == duration_config_of(a))
    &&& (bar.config is Some <==> setup)
    &&& bar.title@ == bar_title_of(a.mode)
    &&& bar.blocks@.len() == 24
    &&& forall|i: int| 0 <= i < 24 ==> seg_view(#[trigger] bar.blocks@[i]) == block_cell_of(
        a.schedule.blocks[i],
        i == a.schedule.current_hour,
        a.schedule.completed_count as usize,
        a.tick_count as u64,
        mode,
    )
    &&& (bar.labels is Some <==> mode != BarMode::Tiny)
    &&& (bar.labels matches Some(l) ==> l@.len() == 24 && forall|i: int| 0 <= i < 24 ==> Some(seg_view(#[trigger] l@[i])) == hour_label_of(i as nat, i == a.schedule.current_hour, mode))
    &&& (bar.cursor is Some <==> setup)
    &&& (bar.cursor matches Some(c) ==> c@.len() == 24 && forall|i: int| 0 <= i < 24 ==> seg_view(#[trigger] c@[i]) == cursor_cell_of(i == a.cursor, mode))
    &&& segs(bar.legend@) == legend_of(a)
}

pub fn schedule_bar(app: &App, width: u16) -> (bar: ScheduleBar)
    requires
        app.schedule@.blocks.len() == 24,
    ensures
        schedule_bar_ok(app@, width, bar),
{
    let mode = bar_mode(width);
    let show_labels = !matches!(mode, BarMode::Tiny);
    let setup = app.mode == InputMode::Setup;
    let config = if setup { Some(build_duration_config(app)) } else { None };
    let title = if setup { "select your study hours" } else { "schedule" };
    let total_completed = app.schedule.completed_total();
    let mut blocks: Vec<Segment> = Vec::new();
    let mut labels: Vec<Segment> = Vec::new();
    let mut cursor: Vec<Segment> = Vec::new();
    let mut i: usize = 0;
    while i < 24
        invariant
            app.schedule@.blocks.len() == 24,
            mode == bar_mode_of(width),
            show_labels == (mode != BarMode::Tiny),
            setup == (app.mode == InputMode::Setup),
            total_completed == app.schedule@.completed_count,
            i <= 24,
            blocks@.len() == i,
            show_labels ==> labels@.len() == i,
            cursor@.len() == i,
            forall|j: int| 0 <= j < i ==> seg_view(#[trigger] blocks@[j]) == block_cell_of(
                app@.schedule.blocks[j],
                j == app@.schedule.current_hour,
                total_completed,
                app.tick_count,
                mode,
            ),
            show_labels ==> forall|j: int| 0 <= j < i ==> Some(seg_view(#[trigger] labels@[j])) == hour_label_of(j as nat, j == app@.schedule.current_hour, mode),
            forall|j: int| 0 <= j < i ==> seg_view(#[trigger] cursor@[j]) == cursor_cell_of(setup && j == app@.cursor, mode),
        decreases 24 - i,
    {
        let is_current = i == app.schedule.hour() as usize;
        let block = app.schedule.block(i);
        blocks.push(render_block(&block, is_current, total_completed, app.tick_count, mode));
        match hour_label(i, is_current, mode) {
            Some(l) => labels.push(l),
            None => {},
        }
        cursor.push(cursor_cell(setup && i == app.cursor, mode));
        i = i + 1;
    }
    let labels = if show_labels { Some(labels) } else { None };
    let cursor = if setup { Some(cursor) } else { None };
    ScheduleBar { config, title, blocks, labels, cursor, legend: build_legend(app) }
}

/// The height of the schedule bar: title, blocks and legend, with labels on
/// terminals at least 48 wide, and cursor and duration rows while planning.
pub open spec fn schedule_height_of(width: u16, mode: InputMode) -> nat {
    3 + (if width >= 48 { 1nat } else { 0nat }) + (if mode == InputMode::Setup { 2nat } else { 0nat })
}

pub fn schedule_height(width: u16, mode: InputMode) -> (h: u16)
    ensures
        h == schedule_height_of(width, mode),
{
    let show_labels = width >= COMPACT_MIN_WIDTH;
    let setup = mode == InputMode::Setup;
    1 + 1 + 1 + if show_labels { 1 } else { 0 } + if setup { 1 } else { 0 } + if setup { 1 } else { 0 }
}

/// The colour of the timer in each state.
pub open spec fn timer_tone_of(state: PomodoroState) -> TimerTone {
    match state {
        PomodoroState::Idle => TimerTone::Idle,
        PomodoroState::Studying => TimerTone::Study,
        PomodoroState::Breaking => TimerTone::Break,
        PomodoroState::Paused => TimerTone::Paused,
        PomodoroState::Done => TimerTone::Study,
    }
}

pub fn timer_tone(state: PomodoroState) -> (t: TimerTone)
    ensures
        t == timer_tone_of(state),
{
    match state {
        PomodoroState::Idle => TimerTone::Idle,
        PomodoroState::Studying => TimerTone::Study,
        PomodoroState::Breaking => TimerTone::Break,
        PomodoroState::Paused => TimerTone::Paused,
        PomodoroState::Done => TimerTone::Study,
    }
}

/// The colour of the state label: paused first, then study, then break.
pub open spec fn label_tone_of(studying: bool, breaking: bool, paused: bool) -> TimerTone {
    if paused {
        TimerTone::Paused
    } else if studying {
        TimerTone::Study
    } else if breaking {
        TimerTone::Break
    } else {
        TimerTone::Idle
    }
}

/// Style for the label below timer
pub fn state_label_tone(studying: bool, breaking: bool, paused: bool) -> (t: TimerTone)
    ensures
        t == label_tone_of(studying, breaking, paused),
{
    if paused {
        TimerTone::Paused
    } else if studying {
        TimerTone::Study
    } else if breaking {
        TimerTone::Break
    } else {
        TimerTone::Idle
    }
}

/// The name of each state's picture.
pub open spec fn art_key_of(state: PomodoroState) -> Seq<char> {
    match state {
        PomodoroState::Idle => "idle"@,
        PomodoroState::Studying => "studying"@,
        PomodoroState::Breaking => "break"@,
        PomodoroState::Paused => "paused"@,
        PomodoroState::Done => "done"@,
    }
}

pub fn art_key(state: PomodoroState) -> (k: &'static str)
    ensures
        k@ == art_key_of(state),
{
    match state {
        PomodoroState::Idle => "idle",
        PomodoroState::Studying => "studying",
        PomodoroState::Breaking => "break",
        PomodoroState::Paused => "paused",
        PomodoroState::Done => "done",
    }
}

/// The cycles line under the timer: the total once the session is done,
/// else the count so far once there is one.
pub open spec fn cycles_line_of(a: AppView) -> Option<Seq<char>> {
    if a.state == PomodoroState::Done {
        Some(decimal(a.completed_cycles) + " cycles completed"@)
    } else if a.completed_cycles > 0 {
        Some(decimal(a.completed_cycles) + " done"@)
    } else {
        None
    }
}

pub fn cycles_line(app: &App) -> (l: Option<String>)
    ensures
        match l {
            Some(s) => cycles_line_of(app@) == Some(s@),
            None => cycles_line_of(app@) is None,
        },
{
    if app.completed_cycles > 0 || app.state == PomodoroState::Done {
        let mut s = String::new();
        push_decimal(&mut s, app.completed_cycles as u128);
        if app.state == PomodoroState::Done {
            s.append(" cycles completed");
        } else {
            s.append(" done");
        }
        assert(Some(s@) == cycles_line_of(app@));
        Some(s)
    } else {
        None
    }
}

/// Whether the progress gauge shows: while a phase runs or is paused.
pub open spec fn shows_gauge_of(state: PomodoroState) -> bool {
    state == PomodoroState::Studying || state == PomodoroState::Breaking || state == PomodoroState::Paused
}

pub fn shows_gauge(state: PomodoroState) -> (b: bool)
    ensures
        b == shows_gauge_of(state),
{
    matches!(state, PomodoroState::Studying | PomodoroState::Breaking | PomodoroState::Paused)
}

/// The gauge takes 30% of a terminal at least 50 wide, else 50%.
pub fn gauge_percent(width: u16) -> (p: u16)
    ensures
        p == if width >= 50 { 30u16 } else { 50u16 },
{
    if width >= 50 { 30 } else { 50 }
}

/// The timer's content height: picture (5), spacer, digits (5 on terminals
/// at least 34 wide, else 3), label, gauge and cycles.
pub fn timer_content_height(width: u16) -> (h: u16)
    ensures
        h == if width >= 34 { 14u16 } else { 12u16 },
{
    let digit_height: u16 = if width >= 34 { 5 } else { 3 };
    5 + 1 + digit_height + 1 + 1 + 1
}

} // verus!
