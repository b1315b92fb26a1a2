use pomoru::history::{History, RecordedAt, SessionRecord};

const TODAY: i32 = 739_000;

fn rec(day: i32, study: u64, cycles: u32) -> SessionRecord {
    SessionRecord {
        date: RecordedAt { day, unix_seconds: 0, nanos: 0 },
        study_minutes: study,
        break_minutes: 10,
        cycles_completed: cycles,
        hours_planned: vec![9, 10],
    }
}

fn history(records: Vec<SessionRecord>) -> History {
    let mut h = History::new();
    for r in records {
        h.add_session(r);
    }
    h
}

#[test]
fn sessions_on_a_day_in_order() {
    let h = history(vec![rec(TODAY, 50, 2), rec(TODAY - 1, 25, 1), rec(TODAY, 30, 3)]);
    let on = h.sessions_on(TODAY);
    assert_eq!(on.len(), 2);
    assert_eq!(on[0].study_minutes, 50);
    assert_eq!(on[1].study_minutes, 30);
    assert!(h.sessions_on(TODAY - 5).is_empty());
}

#[test]
fn cycles_and_minutes_on_a_day() {
    let h = history(vec![rec(TODAY, 50, 2), rec(TODAY - 1, 25, 1), rec(TODAY, 30, 3)]);
    assert_eq!(h.cycles_on(TODAY), 5);
    assert_eq!(h.study_minutes_on(TODAY), 50 * 2 + 30 * 3);
    assert_eq!(h.cycles_on(TODAY - 1), 1);
    assert_eq!(h.study_minutes_on(TODAY - 1), 25);
    assert_eq!(h.cycles_on(TODAY + 1), 0);
    assert_eq!(h.study_minutes_on(TODAY + 1), 0);
}

#[test]
fn add_session_law() {
    let mut h = history(vec![rec(TODAY, 50, 2)]);
    let before_today = h.cycles_on(TODAY);
    let before_other = h.cycles_on(TODAY - 1);
    h.add_session(rec(TODAY, 20, 4));
    assert_eq!(h.cycles_on(TODAY), before_today + 4);
    assert_eq!(h.cycles_on(TODAY - 1), before_other);
    assert_eq!(h.study_minutes_on(TODAY), 100 + 80);
    assert_eq!(h.sessions.len(), 2);
}

#[test]
fn streak_counts_back_from_today() {
    let h = history(vec![rec(TODAY, 50, 1), rec(TODAY - 1, 50, 1), rec(TODAY - 2, 50, 2), rec(TODAY - 4, 50, 1)]);
    assert_eq!(h.streak_from(TODAY), 3);
}

#[test]
fn streak_may_end_yesterday() {
    let h = history(vec![rec(TODAY - 1, 50, 1), rec(TODAY - 2, 50, 2)]);
    assert_eq!(h.streak_from(TODAY), 2);
}

#[test]
fn streak_law_needs_today_or_yesterday() {
    let h = history(vec![rec(TODAY - 2, 50, 1), rec(TODAY - 3, 50, 1)]);
    assert_eq!(h.streak_from(TODAY), 0);
    assert_eq!(History::new().streak_from(TODAY), 0);
}

#[test]
fn sessions_without_cycles_still_count() {
    let h = history(vec![rec(TODAY, 50, 0), rec(TODAY - 1, 50, 1)]);
    assert_eq!(h.streak_from(TODAY), 2);
    assert_eq!(h.active_days_from(TODAY, 7), 2);
    let one = history(vec![rec(100, 50, 0)]);
    assert_eq!(one.streak_from(100), 1);
    assert_eq!(one.active_days_from(100, 1), 1);
}

#[test]
fn active_days_in_a_window() {
    let h = history(vec![rec(TODAY, 50, 1), rec(TODAY - 3, 50, 1), rec(TODAY - 3, 50, 1), rec(TODAY - 10, 50, 1)]);
    assert_eq!(h.active_days_from(TODAY, 7), 2);
    assert_eq!(h.active_days_from(TODAY, 11), 3);
    assert_eq!(h.active_days_from(TODAY, 0), 0);
    assert_eq!(h.active_days_from(TODAY, 1), 1);
}

#[test]
fn total_minutes_in_a_window() {
    let h = history(vec![rec(TODAY, 50, 2), rec(TODAY - 6, 25, 1), rec(TODAY - 7, 40, 1)]);
    assert_eq!(h.total_minutes_from(TODAY, 7), 125);
    assert_eq!(h.total_minutes_from(TODAY, 8), 165);
    assert_eq!(h.total_minutes_from(TODAY, 0), 0);
}

#[test]
fn window_extends_by_one_day_law() {
    let h = history(vec![rec(TODAY, 50, 2), rec(TODAY - 2, 30, 1)]);
    for n in 0..5u32 {
        assert_eq!(
            h.total_minutes_from(TODAY, n + 1),
            h.total_minutes_from(TODAY, n) + h.study_minutes_on(TODAY - n as i32)
        );
    }
}

#[test]
fn clock_statistics_of_an_empty_history() {
    let h = History::new();
    assert_eq!(h.streak(), 0);
    assert_eq!(h.active_days(30), 0);
    assert_eq!(h.total_minutes_last(30), 0);
}
