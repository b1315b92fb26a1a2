use pomoru::timer::{Fraction, Timer, NANOS_PER_SEC};

fn secs(s: u128) -> u128 {
    s * NANOS_PER_SEC
}

#[test]
fn new_timer_is_stopped_and_full() {
    let t = Timer::new(secs(90));
    assert_eq!(t.total, secs(90));
    assert_eq!(t.remaining, secs(90));
    assert!(!t.running);
    assert_eq!(t.display(), "01:30");
}

#[test]
fn stopped_timer_does_not_advance() {
    let mut t = Timer::new(secs(90));
    assert!(!t.advance(secs(200)));
    assert_eq!(t.remaining, secs(90));
    assert!(!t.tick());
    assert_eq!(t.remaining, secs(90));
}

#[test]
fn running_timer_counts_down_and_expires_once() {
    let mut t = Timer::new(secs(90));
    t.start();
    assert!(t.running);
    assert!(!t.advance(secs(30)));
    assert_eq!(t.remaining, secs(60));
    assert!(t.advance(secs(60)));
    assert_eq!(t.remaining, 0);
    assert!(!t.running);
    assert!(!t.advance(secs(1)));
}

#[test]
fn overshooting_tick_stops_at_zero() {
    let mut t = Timer::new(secs(10));
    t.start();
    assert!(t.advance(secs(500)));
    assert_eq!(t.remaining, 0);
    assert_eq!(t.total, secs(10));
}

#[test]
fn ticks_compose_law() {
    let mut a = Timer::new(secs(100));
    a.start();
    a.advance(secs(30));
    a.advance(secs(45));
    let mut b = Timer::new(secs(100));
    b.start();
    b.advance(secs(75));
    assert_eq!(a.remaining, b.remaining);
    assert_eq!(a.running, b.running);
    let mut c = Timer::new(secs(100));
    c.start();
    let first = c.advance(secs(60));
    let second = c.advance(secs(60));
    let mut d = Timer::new(secs(100));
    d.start();
    assert_eq!(first || second, d.advance(secs(120)));
    assert_eq!(c.remaining, d.remaining);
}

#[test]
fn pause_and_resume() {
    let mut t = Timer::new(secs(60));
    t.start();
    t.pause();
    assert!(!t.running);
    assert!(!t.advance(secs(10)));
    assert_eq!(t.remaining, secs(60));
    t.resume();
    assert!(t.running);
    t.advance(secs(10));
    assert_eq!(t.remaining, secs(50));
}

#[test]
fn reset_sets_a_fresh_phase() {
    let mut t = Timer::new(secs(60));
    t.start();
    t.advance(secs(10));
    t.reset(secs(300));
    assert_eq!(t.total, secs(300));
    assert_eq!(t.remaining, secs(300));
    assert!(!t.running);
}

#[test]
fn progress_is_exact() {
    let mut t = Timer::new(100);
    assert_eq!(t.progress(), Fraction { num: 0, den: 100 });
    t.start();
    t.advance(75);
    assert_eq!(t.progress(), Fraction { num: 75, den: 100 });
    t.advance(25);
    assert_eq!(t.progress(), Fraction { num: 100, den: 100 });
    let z = Timer::new(0);
    assert_eq!(z.progress(), Fraction { num: 1, den: 1 });
}

#[test]
fn progress_grows_law() {
    let mut t = Timer::new(1000);
    t.start();
    let mut last = t.progress().num;
    for step in [1u128, 10, 100, 0, 500, 1000] {
        t.advance(step);
        let p = t.progress();
        assert_eq!(p.den, 1000);
        assert!(p.num >= last);
        assert!(p.num <= p.den);
        last = p.num;
    }
}

#[test]
fn display_formats_minutes_and_seconds() {
    let mut t = Timer::new(secs(3599) + 999_999_999);
    assert_eq!(t.display(), "59:59");
    t.reset(0);
    assert_eq!(t.display(), "00:00");
    t.reset(secs(5));
    assert_eq!(t.display(), "00:05");
    t.reset(secs(6000));
    assert_eq!(t.display(), "100:00");
    t.reset(secs(50 * 60));
    assert_eq!(t.display(), "50:00");
}

#[test]
fn tick_reads_the_clock_until_expiry() {
    let mut t = Timer::new(1);
    t.start();
    let mut expired = false;
    for _ in 0..1_000_000 {
        if t.tick() {
            expired = true;
            break;
        }
    }
    assert!(expired);
    assert_eq!(t.remaining, 0);
    assert!(!t.running);
}

#[test]
fn ticks_measure_from_the_last_reading() {
    let mut t = Timer::new(secs(100));
    t.start_at(secs(5));
    assert!(!t.tick_at(secs(15)));
    assert_eq!(t.remaining, secs(90));
    assert!(!t.tick_at(secs(40)));
    assert_eq!(t.remaining, secs(65));
    t.pause();
    assert!(!t.tick_at(secs(500)));
    assert_eq!(t.remaining, secs(65));
    t.resume_at(secs(1000));
    assert!(!t.tick_at(secs(1010)));
    assert_eq!(t.remaining, secs(55));
    assert!(t.tick_at(secs(2000)));
    assert_eq!(t.remaining, 0);
    assert!(!t.running);
}

#[test]
fn an_earlier_reading_counts_as_no_time() {
    let mut t = Timer::new(secs(10));
    t.start_at(secs(50));
    assert!(!t.tick_at(secs(40)));
    assert_eq!(t.remaining, secs(10));
}

#[test]
fn ticks_between_readings_law() {
    let mut a = Timer::new(secs(100));
    a.start_at(0);
    a.tick_at(secs(30));
    a.tick_at(secs(70));
    let mut b = Timer::new(secs(100));
    b.start_at(0);
    b.tick_at(secs(70));
    assert_eq!(a.remaining, b.remaining);
    assert_eq!(a.running, b.running);
}
