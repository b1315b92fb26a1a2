//! The countdown timer of one study or break phase.

use crate::clock::{instant_now, nanos_between};
use crate::text::{decimal, pad_left, push_padded};
use std::time::Instant;
use vstd::prelude::*;

verus! {

/// Nanoseconds in one second.
pub const NANOS_PER_SEC: u128 = 1_000_000_000;

/// An exact ratio `num / den` with `0 <= num <= den` and `den > 0`.
#[derive(Clone, Copy, Debug, PartialEq, Eq, Structural)]
pub struct Fraction {
    pub num: u128,
    pub den: u128,
}

impl Fraction {
    pub open spec fn wf(self) -> bool {
        self.num <= self.den && self.den > 0
    }
}

/// A countdown over `total` nanoseconds, of which `remaining` are left.
/// While `running`, each `tick` takes off the time that passed since the
/// last tick, `start` or `resume`. The timer reads the monotonic clock as
/// nanoseconds since `origin`, the instant it was made.
pub struct Timer {
    pub total: u128,
    pub remaining: u128,
    /// The instant the timer was made; its clock readings count from here.
    origin: Instant,
    /// The clock reading (nanoseconds since `origin`) of the last tick,
    /// start or resume.
    last_tick: u128,
    pub running: bool,
}

/// What a timer is, apart from the instant its readings count from.
pub struct TimerView {
    pub total: nat,
    pub remaining: nat,
    pub running: bool,
    pub last_tick: nat,
}

impl View for Timer {
    type V = TimerView;

    closed spec fn view(&self) -> TimerView {
        TimerView {
            total: self.total as nat,
            remaining: self.remaining as nat,
            running: self.running,
            last_tick: self.last_tick as nat,
        }
    }
}

/// A new stopped timer that counts down `duration` nanoseconds, its clock
/// read at its making.
pub open spec fn new_timer(duration: nat) -> TimerView {
    TimerView { total: duration, remaining: duration, running: false, last_tick: 0 }
}

/// The timer stopped and set to count down `duration` nanoseconds afresh;
/// its last clock reading stays.
pub open spec fn reset_timer(t: TimerView, duration: nat) -> TimerView {
    TimerView { total: duration, remaining: duration, running: false, ..t }
}

/// The timer running, measuring from the clock reading `now`.
pub open spec fn started_at(t: TimerView, now: nat) -> TimerView {
    TimerView { running: true, last_tick: now, ..t }
}

/// The time from reading `earlier` to reading `later`, zero if `later` is
/// in fact the earlier one.
pub open spec fn since(later: nat, earlier: nat) -> nat {
    if later >= earlier { (later - earlier) as nat } else { 0 }
}

/// A tick at clock reading `now`: a running timer loses the time since its
/// last reading and keeps `now` as its last reading; a stopped timer does
/// not move and reads nothing.
pub open spec fn ticked_at(t: TimerView, now: nat) -> (TimerView, bool) {
    if !t.running {
        (t, false)
    } else {
        advanced(TimerView { last_tick: now, ..t }, since(now, t.last_tick))
    }
}

/// The timer after `elapsed` nanoseconds have passed, and whether it ran out
/// then: a running timer that had at most `elapsed` left stops at zero.
pub open spec fn advanced(t: TimerView, elapsed: nat) -> (TimerView, bool) {
    if !t.running {
        (t, false)
    } else if elapsed >= t.remaining {
        (TimerView { remaining: 0, running: false, ..t }, true)
    } else {
        (TimerView { remaining: (t.remaining - elapsed) as nat, ..t }, false)
    }
}

/// The share of the phase that is over: 1 for a phase of no length.
pub open spec fn progress_of(t: TimerView) -> Fraction {
    if t.total == 0 {
        Fraction { num: 1, den: 1 }
    } else {
        Fraction { num: (t.total - t.remaining) as u128, den: t.total as u128 }
    }
}

/// `MM:SS` of the whole seconds left: minutes (at least two digits, as many
/// as needed) and seconds, each zero-padded to two digits.
pub open spec fn clock_face(remaining: nat) -> Seq<char> {
    let secs = remaining / (NANOS_PER_SEC as nat);
    pad_left(decimal(secs / 60), 2, '0') + seq![':'] + pad_left(decimal(secs % 60), 2, '0')
}

impl Timer {
    /// No more time left than the phase is long.
    pub open spec fn wf(&self) -> bool {
        self@.remaining <= self@.total
    }

    pub fn new(duration: u128) -> (t: Timer)
        ensures
            t@ == new_timer(duration as nat),
            t.wf(),
    {
        let origin = instant_now();
        Timer { total: duration, remaining: duration, origin, last_tick: 0, running: false }
    }

    /// Reads the monotonic clock: nanoseconds since the timer's `origin`.
    /// A reading is never earlier than the timer's last one: the clock does
    /// not go back, and a raw reading before `last_tick` (possible only after
    /// a reading handed in by hand) counts as `last_tick`. Which reading it
    /// is depends on the time, so that is all that is stated of it.
    pub fn read_clock(&self) -> (now: u128)
        ensures
            now >= self@.last_tick,
    {
        let instant = instant_now();
        let raw = nanos_between(&instant, &self.origin);
        if raw < self.last_tick {
            self.last_tick
        } else {
            raw
        }
    }

    /// Takes `elapsed` nanoseconds off a running timer. Returns true if the
    /// timer just ran out, and then it stands stopped at zero.
    pub fn advance(&mut self, elapsed: u128) -> (expired: bool)
        ensures
            (final(self)@, expired) == advanced(old(self)@, elapsed as nat),
    {
        if !self.running {
            return false;
        }
        if elapsed >= self.remaining {
            self.remaining = 0;
            self.running = false;
            return true;
        }
        self.remaining = self.remaining - elapsed;
        false
    }

    /// A tick with the clock reading `now`: a running timer loses the time
    /// since its last reading. Returns true if the timer just expired.
    pub fn tick_at(&mut self, now: u128) -> (expired: bool)
        ensures
            (final(self)@, expired) == ticked_at(old(self)@, now as nat),
    {
        if !self.running {
            return false;
        }
        let elapsed = if now >= self.last_tick { now - self.last_tick } else { 0 };
        self.last_tick = now;
        self.advance(elapsed)
    }

    /// Advance the timer. Returns true if the timer just expired.
    pub fn tick(&mut self) -> (expired: bool)
        ensures
            exists|now: nat|
                now >= old(self)@.last_tick && (final(self)@, expired) == #[trigger] ticked_at(old(self)@, now),
            !old(self)@.running ==> final(self)@ == old(self)@ && !expired,
    {
        if !self.running {
            assert((self@, false) == ticked_at(self@, self@.last_tick));
            return false;
        }
        let now = self.read_clock();
        self.tick_at(now)
    }

    /// Starts the timer, measuring from the clock reading `now`.
    pub fn start_at(&mut self, now: u128)
        ensures
            final(self)@ == started_at(old(self)@, now as nat),
    {
        self.last_tick = now;
        self.running = true;
    }

    pub fn start(&mut self)
        ensures
            exists|now: nat| now >= old(self)@.last_tick && final(self)@ == #[trigger] started_at(old(self)@, now),
    {
        let now = self.read_clock();
        self.start_at(now);
    }

    pub fn pause(&mut self)
        ensures
            final(self)@ == (TimerView { running: false, ..old(self)@ }),
    {
        self.running = false;
    }

    /// Resumes the timer, measuring from the clock reading `now`, so the
    /// time it stood paused is not counted.
    pub fn resume_at(&mut self, now: u128)
        ensures
            final(self)@ == started_at(old(self)@, now as nat),
    {
        self.last_tick = now;
        self.running = true;
    }

    pub fn resume(&mut self)
        ensures
            exists|now: nat| now >= old(self)@.last_tick && final(self)@ == #[trigger] started_at(old(self)@, now),
    {
        let now = self.read_clock();
        self.resume_at(now);
    }

    pub fn reset(&mut self, duration: u128)
        ensures
            final(self)@ == reset_timer(old(self)@, duration as nat),
    {
        self.total = duration;
        self.remaining = duration;
        self.running = false;
    }

    /// Progress from 0 (just started) to 1 (done), exactly.
    pub fn progress(&self) -> (p: Fraction)
        requires
            self.wf(),
        ensures
            p == progress_of(self@),
            p.wf(),
    {
        if self.total == 0 {
            return Fraction { num: 1, den: 1 };
        }
        Fraction { num: self.total - self.remaining, den: self.total }
    }

    /// Format as MM:SS
    pub fn display(&self) -> (s: String)
        ensures
            s@ == clock_face(self@.remaining),
    {
        let secs = self.remaining / NANOS_PER_SEC;
        let m = secs / 60;
        let sec = secs % 60;
        let mut s = String::new();
        push_padded(&mut s, m, 2, true);
        proof {
            reveal_strlit(":");
        }
        s.append(":");
        push_padded(&mut s, sec, 2, true);
        s
    }
}

/// Ticks compose: advancing by `a` and then by `b` leaves the timer as
/// advancing by `a + b` at once does, so the timer's state depends only on
/// the total time that passed.
pub proof fn law_ticks_compose(t: TimerView, a: nat, b: nat)
    ensures
        advanced(advanced(t, a).0, b).0 == advanced(t, a + b).0,
        advanced(t, a).1 || advanced(advanced(t, a).0, b).1 <==> advanced(t, a + b).1,
{
}

/// A tick never adds time: the remaining time only shrinks, the length of
/// the phase stays, and there is never more left than the phase is long.
pub proof fn law_timer_never_gains(t: TimerView, elapsed: nat)
    ensures
        advanced(t, elapsed).0.remaining <= t.remaining,
        advanced(t, elapsed).0.total == t.total,
        t.remaining <= t.total ==> advanced(t, elapsed).0.remaining <= advanced(t, elapsed).0.total,
{
}

/// The timer runs out exactly when it is running and at least the time left
/// has passed; then it stands stopped at zero. A stopped timer does not move.
pub proof fn law_expiry(t: TimerView, elapsed: nat)
    ensures
        advanced(t, elapsed).1 <==> (t.running && elapsed >= t.remaining),
        advanced(t, elapsed).1 ==> advanced(t, elapsed).0.remaining == 0 && !advanced(
            t,
            elapsed,
        ).0.running,
        !t.running ==> advanced(t, elapsed) == (t, false),
{
}

/// Progress never goes back: after a tick the same phase is at least as far.
pub proof fn law_progress_grows(t: TimerView, elapsed: nat)
    requires
        t.remaining <= t.total,
        t.total <= u128::MAX,
    ensures
        progress_of(advanced(t, elapsed).0).den == progress_of(t).den,
        progress_of(advanced(t, elapsed).0).num >= progress_of(t).num,
        progress_of(t).wf(),
{
}

/// A resumed timer measures from the resume: its next tick takes off only
/// the time since the resume reading, however long it stood paused.
pub proof fn law_resume_measures_from_resume(t: TimerView, resumed: nat, now: nat)
    ensures
        ticked_at(started_at(TimerView { running: false, ..t }, resumed), now) == advanced(
            TimerView { running: true, last_tick: now, ..t },
            since(now, resumed),
        ),
{
}

/// Ticks at successive clock readings leave the timer as one tick at the
/// last reading does (its time left and whether it runs), and it runs out in
/// one of them exactly when the single tick runs it out: what counts is the
/// time since the last start or resume.
pub proof fn law_ticks_between_readings(t: TimerView, first: nat, second: nat)
    requires
        t.last_tick <= first <= second,
    ensures
        ticked_at(ticked_at(t, first).0, second).0.remaining == ticked_at(t, second).0.remaining,
        ticked_at(ticked_at(t, first).0, second).0.running == ticked_at(t, second).0.running,
        ticked_at(t, first).1 || ticked_at(ticked_at(t, first).0, second).1 <==> ticked_at(t, second).1,
{
    if t.running {
        let t2 = TimerView { last_tick: second, ..t };
        law_ticks_compose(t2, (first - t.last_tick) as nat, (second - first) as nat);
    }
}

} // verus!
