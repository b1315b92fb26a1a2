use pomoru::app::{App, DurationField, InputMode, Key, KeyPress, Notice, PomodoroState};
use pomoru::history::RecordedAt;
use pomoru::schedule::BlockState;
use pomoru::timer::{Fraction, NANOS_PER_SEC};

fn key(code: Key) -> KeyPress {
    KeyPress { code, shift: false }
}

fn ch(c: char) -> KeyPress {
    key(Key::Char(c))
}

fn mins(m: u128) -> u128 {
    m * 60 * NANOS_PER_SEC
}

/// Plans hours 9 and 11 and starts studying.
fn studying_app() -> App {
    let mut app = App::starting_at(50, 10, 9);
    app.apply_key(ch(' '), 9, 0);
    app.apply_key(key(Key::Right), 9, 0);
    app.apply_key(key(Key::Right), 9, 0);
    app.apply_key(ch(' '), 9, 0);
    app.apply_key(key(Key::Enter), 9, 0);
    app
}

#[test]
fn starts_planning() {
    let app = App::starting_at(50, 10, 9);
    assert!(app.state == PomodoroState::Idle);
    assert!(app.mode == InputMode::Setup);
    assert_eq!(app.cursor, 9);
    assert_eq!(app.schedule.current_hour, 9);
    assert_eq!(app.timer.total, mins(50));
    assert!(!app.timer.running);
    assert_eq!(app.completed_cycles, 0);
    assert_eq!(app.tick_count, 0);
    assert!(app.editing_field == DurationField::Study);
    assert!(!app.should_quit);
}

#[test]
fn new_reads_a_valid_hour() {
    let app = App::new(25, 5);
    assert!(app.cursor < 24);
    assert_eq!(app.cursor, app.schedule.current_hour as usize);
    assert_eq!(app.study_minutes, 25);
    assert_eq!(app.break_minutes, 5);
}

#[test]
fn durations_in_nanoseconds() {
    let app = App::starting_at(50, 10, 0);
    assert_eq!(app.study_duration(), 3_000_000_000_000);
    assert_eq!(app.break_duration(), 600_000_000_000);
}

#[test]
fn cursor_moves_within_the_day() {
    let mut app = App::starting_at(50, 10, 0);
    app.apply_key(key(Key::Left), 0, 0);
    assert_eq!(app.cursor, 0);
    app.apply_key(ch('l'), 0, 0);
    assert_eq!(app.cursor, 1);
    app.apply_key(ch('h'), 0, 0);
    assert_eq!(app.cursor, 0);
    let mut last = App::starting_at(50, 10, 23);
    last.apply_key(key(Key::Right), 0, 0);
    assert_eq!(last.cursor, 23);
    assert!(last.schedule.blocks.iter().all(|b| *b == BlockState::Unplanned));
}

#[test]
fn shift_moves_select_both_hours() {
    let mut app = App::starting_at(50, 10, 5);
    app.apply_key(KeyPress { code: Key::Right, shift: true }, 0, 0);
    assert_eq!(app.cursor, 6);
    assert_eq!(app.schedule.blocks[5], BlockState::Planned);
    assert_eq!(app.schedule.blocks[6], BlockState::Planned);
    app.apply_key(ch('L'), 0, 0);
    assert_eq!(app.cursor, 7);
    assert_eq!(app.schedule.blocks[6], BlockState::Planned);
    assert_eq!(app.schedule.blocks[7], BlockState::Planned);
    app.apply_key(ch('H'), 0, 0);
    assert_eq!(app.cursor, 6);
    assert_eq!(app.schedule.blocks[7], BlockState::Planned);
    assert_eq!(app.schedule.blocks[6], BlockState::Planned);
}

#[test]
fn shift_at_the_edge_selects_once() {
    let mut app = App::starting_at(50, 10, 0);
    app.apply_key(KeyPress { code: Key::Left, shift: true }, 0, 0);
    assert_eq!(app.cursor, 0);
    assert_eq!(app.schedule.blocks[0], BlockState::Planned);
}

#[test]
fn space_toggles_and_c_clears() {
    let mut app = App::starting_at(50, 10, 3);
    app.apply_key(ch(' '), 0, 0);
    assert_eq!(app.schedule.blocks[3], BlockState::Planned);
    app.apply_key(ch('c'), 0, 0);
    assert_eq!(app.schedule.blocks[3], BlockState::Unplanned);
}

#[test]
fn tab_twice_law() {
    let mut app = App::starting_at(50, 10, 3);
    assert_eq!(app.apply_key(key(Key::Tab), 0, 0), Notice::Quiet);
    assert!(app.editing_field == DurationField::Break);
    app.apply_key(key(Key::Tab), 0, 0);
    assert!(app.editing_field == DurationField::Study);
}

#[test]
fn duration_keys_clamp() {
    let mut app = App::starting_at(118, 58, 3);
    app.apply_key(key(Key::Up), 0, 0);
    assert_eq!(app.study_minutes, 120);
    app.apply_key(ch('+'), 0, 0);
    assert_eq!(app.study_minutes, 120);
    app.apply_key(ch('-'), 0, 0);
    assert_eq!(app.study_minutes, 115);
    app.apply_key(key(Key::Tab), 0, 0);
    app.apply_key(ch('k'), 0, 0);
    assert_eq!(app.break_minutes, 60);
    app.apply_key(ch('j'), 0, 0);
    assert_eq!(app.break_minutes, 55);
    let mut small = App::starting_at(7, 3, 0);
    small.apply_key(key(Key::Down), 0, 0);
    assert_eq!(small.study_minutes, 5);
    small.apply_key(key(Key::Tab), 0, 0);
    small.apply_key(key(Key::Down), 0, 0);
    assert_eq!(small.break_minutes, 5);
    let mut large = App::starting_at(500, 10, 0);
    large.apply_key(key(Key::Up), 0, 0);
    assert_eq!(large.study_minutes, 120);
}

#[test]
fn enter_without_plan_does_nothing() {
    let mut app = App::starting_at(50, 10, 3);
    app.apply_key(key(Key::Enter), 0, 0);
    assert!(app.state == PomodoroState::Idle);
    assert!(app.mode == InputMode::Setup);
}

#[test]
fn enter_starts_the_earliest_planned_hour() {
    let app = studying_app();
    assert!(app.state == PomodoroState::Studying);
    assert!(app.mode == InputMode::Active);
    assert_eq!(app.schedule.blocks[9], BlockState::Active { progress: Fraction { num: 0, den: 1 } });
    assert_eq!(app.schedule.blocks[11], BlockState::Planned);
    assert!(app.timer.running);
    assert_eq!(app.timer.total, mins(50));
}

#[test]
fn q_and_esc_quit() {
    let mut a = App::starting_at(50, 10, 3);
    a.apply_key(ch('q'), 0, 0);
    assert!(a.should_quit);
    let mut b = studying_app();
    b.apply_key(key(Key::Esc), 0, 0);
    assert!(b.should_quit);
}

#[test]
fn setup_tick_resets_the_timer_to_the_study_length() {
    let mut app = App::starting_at(50, 10, 3);
    app.apply_key(key(Key::Up), 0, 0);
    assert_eq!(app.tick_at(4, 12345), Notice::Quiet);
    assert_eq!(app.timer.total, mins(55));
    assert_eq!(app.timer.remaining, mins(55));
    assert_eq!(app.tick_count, 1);
    assert_eq!(app.schedule.current_hour, 4);
}

#[test]
fn study_tick_updates_progress() {
    let mut app = studying_app();
    assert_eq!(app.tick_at(9, mins(10)), Notice::Quiet);
    assert_eq!(app.timer.remaining, mins(40));
    assert_eq!(
        app.schedule.blocks[9],
        BlockState::Active { progress: Fraction { num: mins(10), den: mins(50) } }
    );
}

#[test]
fn whole_session_by_ticks() {
    let mut app = studying_app();
    assert_eq!(app.tick_at(9, mins(50)), Notice::StudyDone { cycles: 1 });
    assert!(app.state == PomodoroState::Breaking);
    assert_eq!(app.schedule.blocks[9], BlockState::Completed { order: 0 });
    assert_eq!(app.completed_cycles, 1);
    assert_eq!(app.timer.total, mins(10));
    assert!(app.timer.running);
    assert_eq!(app.tick_at(10, mins(60)), Notice::BreakDone);
    assert!(app.state == PomodoroState::Studying);
    assert_eq!(app.schedule.blocks[11], BlockState::Active { progress: Fraction { num: 0, den: mins(50) } });
    assert_eq!(app.tick_at(11, mins(120)), Notice::StudyDone { cycles: 2 });
    assert_eq!(app.tick_at(12, mins(130)), Notice::SessionDone { cycles: 2 });
    assert!(app.state == PomodoroState::Done);
    assert!(!app.timer.running);
    assert_eq!(app.schedule.blocks[11], BlockState::Completed { order: 1 });
    assert_eq!(app.tick_count, 4);
}

#[test]
fn pause_twice_law() {
    let mut app = studying_app();
    app.apply_key(ch(' '), 0, 0);
    assert!(app.state == PomodoroState::Paused);
    assert!(app.previous_state == PomodoroState::Studying);
    assert!(!app.timer.running);
    assert_eq!(app.tick_at(9, mins(30)), Notice::Quiet);
    assert_eq!(app.timer.remaining, mins(50));
    app.apply_key(ch(' '), 0, 0);
    assert!(app.state == PomodoroState::Studying);
    assert!(app.timer.running);
}

#[test]
fn skip_law() {
    let mut app = studying_app();
    assert_eq!(app.apply_key(ch('n'), 0, 0), Notice::Quiet);
    assert!(app.state == PomodoroState::Breaking);
    assert_eq!(app.completed_cycles, 1);
    assert_eq!(app.timer.total, mins(10));
    app.apply_key(ch('n'), 0, 0);
    assert!(app.state == PomodoroState::Studying);
    app.apply_key(ch('n'), 0, 0);
    app.apply_key(ch('n'), 0, 0);
    assert!(app.state == PomodoroState::Done);
    assert_eq!(app.completed_cycles, 2);
}

#[test]
fn finish_counts_the_running_study_phase() {
    let mut app = studying_app();
    assert_eq!(app.apply_key(ch('f'), 0, 0), Notice::SessionDone { cycles: 1 });
    assert!(app.state == PomodoroState::Done);
    assert!(!app.timer.running);
    assert_eq!(app.schedule.blocks[9], BlockState::Completed { order: 0 });
}

#[test]
fn finish_during_break_counts_nothing_more() {
    let mut app = studying_app();
    app.apply_key(ch('n'), 0, 0);
    assert_eq!(app.apply_key(ch('f'), 0, 0), Notice::SessionDone { cycles: 1 });
    assert_eq!(app.completed_cycles, 1);
}

#[test]
fn reset_only_when_done() {
    let mut app = studying_app();
    app.apply_key(ch('r'), 5, 0);
    assert!(app.state == PomodoroState::Studying);
    app.apply_key(ch('f'), 0, 0);
    app.apply_key(ch('r'), 5, 0);
    assert!(app.state == PomodoroState::Idle);
    assert!(app.mode == InputMode::Setup);
    assert_eq!(app.completed_cycles, 0);
    assert_eq!(app.schedule.current_hour, 5);
    assert!(app.schedule.blocks.iter().all(|b| *b == BlockState::Unplanned));
    assert_eq!(app.timer.total, mins(50));
    assert!(!app.timer.running);
}

#[test]
fn session_record_of_a_session() {
    let at = RecordedAt { day: 739_000, unix_seconds: 1_700_000_000, nanos: 5 };
    let app = studying_app();
    assert!(app.session_record(at).is_none());
    let mut done = studying_app();
    done.apply_key(ch('f'), 0, 0);
    let rec = done.session_record(at).unwrap();
    assert_eq!(rec.date, at);
    assert_eq!(rec.study_minutes, 50);
    assert_eq!(rec.break_minutes, 10);
    assert_eq!(rec.cycles_completed, 1);
    assert_eq!(rec.hours_planned, vec![9u8, 11]);
}

#[test]
fn state_labels() {
    let mut app = App::starting_at(50, 10, 9);
    assert_eq!(app.state_label(), "IDLE");
    app.state = PomodoroState::Studying;
    assert_eq!(app.state_label(), "STUDYING");
    app.state = PomodoroState::Breaking;
    assert_eq!(app.state_label(), "BREAK");
    app.state = PomodoroState::Paused;
    assert_eq!(app.state_label(), "PAUSED");
    app.state = PomodoroState::Done;
    assert_eq!(app.state_label(), "DONE");
}

#[test]
fn handle_key_and_tick_read_the_clock() {
    let mut app = App::starting_at(50, 10, 23);
    assert_eq!(app.handle_tick(), Notice::Quiet);
    assert_eq!(app.tick_count, 1);
    assert!(app.schedule.current_hour < 24);
    app.handle_key(ch(' '));
    app.handle_key(key(Key::Enter));
    assert!(app.state == PomodoroState::Studying);
    assert_eq!(app.handle_tick(), Notice::Quiet);
    assert!(app.timer.remaining <= mins(50));
    app.handle_key(ch('q'));
    assert!(app.should_quit);
}

#[test]
fn other_keys_do_nothing() {
    let mut app = studying_app();
    assert_eq!(app.apply_key(key(Key::Other), 0, 0), Notice::Quiet);
    assert_eq!(app.apply_key(ch('z'), 0, 0), Notice::Quiet);
    assert!(app.state == PomodoroState::Studying);
}

#[test]
fn cycles_are_completed_hours_law() {
    let mut app = App::starting_at(25, 5, 2);
    for _ in 0..5 {
        app.apply_key(ch(' '), 2, 0);
        app.apply_key(key(Key::Right), 2, 0);
    }
    app.apply_key(key(Key::Enter), 2, 0);
    let count = |a: &App| a.schedule.blocks.iter().filter(|b| matches!(b, BlockState::Completed { .. })).count();
    let mut steps = 0;
    while app.state != PomodoroState::Done && steps < 50 {
        app.apply_key(ch('n'), 2, 0);
        assert_eq!(app.completed_cycles as usize, count(&app));
        steps += 1;
    }
    assert_eq!(app.completed_cycles, 5);
    assert_eq!(app.schedule.completed_total(), 5);
}

#[test]
fn planning_past_hours_does_nothing() {
    let mut app = App::starting_at(50, 10, 9);
    app.apply_key(KeyPress { code: Key::Left, shift: true }, 9, 0);
    assert_eq!(app.cursor, 8);
    assert_eq!(app.schedule.blocks[9], BlockState::Planned);
    assert_eq!(app.schedule.blocks[8], BlockState::Unplanned);
}

#[test]
fn the_paused_time_is_not_counted() {
    let mut app = studying_app();
    app.tick_at(9, mins(10));
    assert_eq!(app.timer.remaining, mins(40));
    app.apply_key(ch(' '), 9, mins(10));
    app.tick_at(9, mins(30));
    assert_eq!(app.timer.remaining, mins(40));
    app.apply_key(ch(' '), 9, mins(40));
    assert!(app.state == PomodoroState::Studying);
    app.tick_at(9, mins(45));
    assert_eq!(app.timer.remaining, mins(35));
}

#[test]
fn a_phase_starts_at_the_step_reading() {
    let mut app = App::starting_at(50, 10, 9);
    app.apply_key(ch(' '), 9, 0);
    app.apply_key(key(Key::Enter), 9, mins(7));
    app.tick_at(9, mins(8));
    assert_eq!(app.timer.remaining, mins(49));
}

#[test]
fn range_selection_plans_every_hour_passed() {
    let mut app = App::starting_at(50, 10, 5);
    app.apply_key(ch('L'), 5, 0);
    app.apply_key(ch('L'), 5, 0);
    app.apply_key(KeyPress { code: Key::Right, shift: true }, 5, 0);
    assert_eq!(app.cursor, 8);
    for h in 5..=8 {
        assert_eq!(app.schedule.blocks[h], BlockState::Planned);
    }
    assert_eq!(app.schedule.blocks[9], BlockState::Unplanned);
    let mut back = App::starting_at(50, 10, 2);
    back.apply_key(key(Key::Right), 2, 0);
    back.apply_key(key(Key::Right), 2, 0);
    back.apply_key(ch('H'), 2, 0);
    back.apply_key(ch('H'), 2, 0);
    assert_eq!(back.cursor, 2);
    for h in 2..=4 {
        assert_eq!(back.schedule.blocks[h], BlockState::Planned);
    }
}

#[test]
fn huge_break_is_accepted_until_a_break_starts() {
    let mut app = App::starting_at(50, u64::MAX, 9);
    assert_eq!(app.break_minutes, u64::MAX);
    app.apply_key(ch(' '), 9, 0);
    app.apply_key(key(Key::Enter), 9, 0);
    assert!(app.state == PomodoroState::Studying);
    app.apply_key(ch('f'), 9, 0);
    assert!(app.state == PomodoroState::Done);
}
