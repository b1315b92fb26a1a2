use pomoru::app::{App, InputMode, Key, KeyPress, PomodoroState};
use pomoru::schedule::BlockState;
use pomoru::timer::Fraction;
use pomoru::view::{
    art_key, bar_mode, build_duration_config, build_legend, control_hints, cursor_cell,
    cycles_line, format_hour_ampm, gauge_percent, hour_label, hour_style, render_block,
    schedule_bar, schedule_height, shows_gauge, state_label_tone, timer_content_height,
    timer_tone, BarMode, Segment, TimerTone, Tone,
};

fn texts(v: &[Segment]) -> Vec<String> {
    v.iter().map(|s| s.text.clone()).collect()
}

fn tones(v: &[Segment]) -> Vec<Tone> {
    v.iter().map(|s| s.tone).collect()
}

fn ch(c: char) -> KeyPress {
    KeyPress { code: Key::Char(c), shift: false }
}

#[test]
fn bar_modes_by_width() {
    assert_eq!(bar_mode(120), BarMode::Wide);
    assert_eq!(bar_mode(96), BarMode::Wide);
    assert_eq!(bar_mode(95), BarMode::Medium);
    assert_eq!(bar_mode(72), BarMode::Medium);
    assert_eq!(bar_mode(71), BarMode::Compact);
    assert_eq!(bar_mode(48), BarMode::Compact);
    assert_eq!(bar_mode(47), BarMode::Tiny);
    assert_eq!(bar_mode(0), BarMode::Tiny);
}

#[test]
fn twelve_hour_labels() {
    assert_eq!(format_hour_ampm(0), "12a ");
    assert_eq!(format_hour_ampm(5), " 5a ");
    assert_eq!(format_hour_ampm(11), "11a ");
    assert_eq!(format_hour_ampm(12), "12p ");
    assert_eq!(format_hour_ampm(13), " 1p ");
    assert_eq!(format_hour_ampm(23), "11p ");
}

#[test]
fn setup_hints() {
    let mut app = App::starting_at(50, 10, 3);
    let h = control_hints(&app);
    assert_eq!(
        texts(&h),
        vec![
            " ←→ move", "  ·", " space toggle", "  ·", " H/L select range", "  ·", " c clear", "  ·",
            " ↑↓ duration", "  ·", " tab study/break", "  ·", " q quit",
        ]
    );
    assert_eq!(h[0].tone, Tone::Hint);
    assert_eq!(h[1].tone, Tone::Free);
    app.apply_key(ch(' '), 0, 0);
    let h = control_hints(&app);
    assert_eq!(h.len(), 15);
    assert_eq!(h[12].text, " enter start");
    assert_eq!(h[12].tone, Tone::HintHighlight);
    assert_eq!(h[14].text, " q quit");
}

#[test]
fn active_hints() {
    let mut app = App::starting_at(50, 10, 3);
    app.apply_key(ch(' '), 0, 0);
    app.apply_key(KeyPress { code: Key::Enter, shift: false }, 0, 0);
    assert_eq!(
        texts(&control_hints(&app)),
        vec![" space pause", "  ·", " n skip", "  ·", " f finish", "  ·", " q quit"]
    );
    app.apply_key(ch(' '), 0, 0);
    assert_eq!(
        texts(&control_hints(&app)),
        vec![" space resume", "  ·", " f finish", "  ·", " q quit"]
    );
    app.apply_key(ch('f'), 0, 0);
    assert_eq!(texts(&control_hints(&app)), vec![" r new session", "  ·", " q quit"]);
}

#[test]
fn duration_row_marks_the_edited_field() {
    let mut app = App::starting_at(50, 10, 3);
    let row = build_duration_config(&app);
    assert_eq!(texts(&row), vec!["study ", "50min", " ↕", "    ", "break ", "10min", ""]);
    assert_eq!(row[1].tone, Tone::CursorBold);
    assert_eq!(row[5].tone, Tone::Dim);
    app.apply_key(KeyPress { code: Key::Tab, shift: false }, 0, 0);
    let row = build_duration_config(&app);
    assert_eq!(texts(&row), vec!["study ", "50min", "", "    ", "break ", "10min", " ↕"]);
    assert_eq!(row[1].tone, Tone::Dim);
    assert_eq!(row[5].tone, Tone::CursorBold);
}

#[test]
fn block_cells() {
    let c = render_block(&BlockState::Unplanned, false, 0, 7, BarMode::Wide);
    assert_eq!((c.text.as_str(), c.tone), ("░░░ ", Tone::Free));
    let c = render_block(&BlockState::Unplanned, true, 0, 7, BarMode::Medium);
    assert_eq!((c.text.as_str(), c.tone), ("░░ ", Tone::FreeCurrent));
    let c = render_block(&BlockState::Planned, false, 0, 7, BarMode::Compact);
    assert_eq!((c.text.as_str(), c.tone), ("▓ ", Tone::Planned));
    let c = render_block(&BlockState::Active { progress: Fraction { num: 1, den: 2 } }, false, 0, 7, BarMode::Tiny);
    assert_eq!((c.text.as_str(), c.tone), ("█", Tone::Pulse { tick: 7 }));
    let c = render_block(&BlockState::Completed { order: 2 }, false, 4, 7, BarMode::Wide);
    assert_eq!((c.text.as_str(), c.tone), ("███ ", Tone::Completed { order: 2, total: 4 }));
}

#[test]
fn hour_labels() {
    let l = hour_label(13, false, BarMode::Wide).unwrap();
    assert_eq!((l.text.as_str(), l.tone), (" 1p ", Tone::Dim));
    let l = hour_label(5, true, BarMode::Medium).unwrap();
    assert_eq!((l.text.as_str(), l.tone), ("05 ", Tone::HourCurrent));
    let l = hour_label(6, false, BarMode::Compact).unwrap();
    assert_eq!(l.text, "06");
    let l = hour_label(7, false, BarMode::Compact).unwrap();
    assert_eq!((l.text.as_str(), l.tone), ("  ", Tone::Free));
    assert!(hour_label(7, false, BarMode::Tiny).is_none());
    assert_eq!(hour_style(true), Tone::HourCurrent);
    assert_eq!(hour_style(false), Tone::Dim);
}

#[test]
fn cursor_cells() {
    let c = cursor_cell(true, BarMode::Wide);
    assert_eq!((c.text.as_str(), c.tone), (" ▲  ", Tone::Cursor));
    let c = cursor_cell(false, BarMode::Medium);
    assert_eq!((c.text.as_str(), c.tone), ("   ", Tone::Plain));
    assert_eq!(cursor_cell(true, BarMode::Tiny).text, "▲");
    assert_eq!(cursor_cell(false, BarMode::Compact).text, "  ");
}

#[test]
fn legend_shows_done_after_a_cycle() {
    let mut app = App::starting_at(50, 10, 3);
    assert_eq!(texts(&build_legend(&app)), vec!["░", " free  ", "▓", " planned  "]);
    app.apply_key(ch(' '), 0, 0);
    app.apply_key(KeyPress { code: Key::Enter, shift: false }, 0, 0);
    app.apply_key(ch('n'), 0, 0);
    let l = build_legend(&app);
    assert_eq!(texts(&l), vec!["░", " free  ", "▓", " planned  ", "█", " done"]);
    assert_eq!(l[4].tone, Tone::Completed { order: 0, total: 1 });
}

#[test]
fn schedule_bar_while_planning() {
    let mut app = App::starting_at(50, 10, 3);
    app.apply_key(ch(' '), 0, 0);
    let bar = schedule_bar(&app, 100);
    assert!(bar.config.is_some());
    assert_eq!(bar.title, "select your study hours");
    assert_eq!(bar.blocks.len(), 24);
    assert_eq!(bar.blocks[3].text, "▓▓▓ ");
    assert_eq!(bar.blocks[4].tone, Tone::Free);
    let labels = bar.labels.unwrap();
    assert_eq!(labels.len(), 24);
    assert_eq!(labels[3].text, " 3a ");
    assert_eq!(labels[3].tone, Tone::HourCurrent);
    let cursor = bar.cursor.unwrap();
    assert_eq!(cursor[3].text, " ▲  ");
    assert_eq!(cursor[4].text, "    ");
    assert_eq!(tones(&bar.legend).len(), 4);
}

#[test]
fn schedule_bar_while_studying_on_a_narrow_terminal() {
    let mut app = App::starting_at(50, 10, 3);
    app.apply_key(ch(' '), 0, 0);
    app.apply_key(KeyPress { code: Key::Enter, shift: false }, 0, 0);
    let bar = schedule_bar(&app, 30);
    assert!(bar.config.is_none());
    assert!(bar.labels.is_none());
    assert!(bar.cursor.is_none());
    assert_eq!(bar.title, "schedule");
    assert_eq!(bar.blocks[3].text, "█");
    assert_eq!(bar.blocks[3].tone, Tone::Pulse { tick: 0 });
    assert_eq!(bar.blocks[0].text, "░");
}

#[test]
fn layout_heights() {
    assert_eq!(schedule_height(100, InputMode::Setup), 6);
    assert_eq!(schedule_height(100, InputMode::Active), 4);
    assert_eq!(schedule_height(40, InputMode::Setup), 5);
    assert_eq!(schedule_height(40, InputMode::Active), 3);
    assert_eq!(timer_content_height(34), 14);
    assert_eq!(timer_content_height(33), 12);
    assert_eq!(gauge_percent(50), 30);
    assert_eq!(gauge_percent(49), 50);
}

#[test]
fn timer_colours_and_pictures() {
    assert_eq!(timer_tone(PomodoroState::Idle), TimerTone::Idle);
    assert_eq!(timer_tone(PomodoroState::Studying), TimerTone::Study);
    assert_eq!(timer_tone(PomodoroState::Breaking), TimerTone::Break);
    assert_eq!(timer_tone(PomodoroState::Paused), TimerTone::Paused);
    assert_eq!(timer_tone(PomodoroState::Done), TimerTone::Study);
    assert_eq!(state_label_tone(true, false, true), TimerTone::Paused);
    assert_eq!(state_label_tone(true, true, false), TimerTone::Study);
    assert_eq!(state_label_tone(false, true, false), TimerTone::Break);
    assert_eq!(state_label_tone(false, false, false), TimerTone::Idle);
    assert_eq!(art_key(PomodoroState::Breaking), "break");
    assert_eq!(art_key(PomodoroState::Idle), "idle");
    assert!(shows_gauge(PomodoroState::Paused));
    assert!(!shows_gauge(PomodoroState::Done));
    assert!(!shows_gauge(PomodoroState::Idle));
}

#[test]
fn cycles_line_texts() {
    let mut app = App::starting_at(50, 10, 3);
    assert_eq!(cycles_line(&app), None);
    app.apply_key(ch(' '), 0, 0);
    app.apply_key(KeyPress { code: Key::Enter, shift: false }, 0, 0);
    app.apply_key(ch('n'), 0, 0);
    assert_eq!(cycles_line(&app), Some("1 done".to_string()));
    app.apply_key(ch('f'), 0, 0);
    assert_eq!(cycles_line(&app), Some("1 cycles completed".to_string()));
}
