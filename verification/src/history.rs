//! The record of finished sessions, and the statistics drawn from it.
//!
//! A calendar day is a day number as chrono's `Datelike::num_days_from_ce`
//! gives it: day 1 is 0001-01-01, and the day before day `d` is `d - 1`.

use crate::clock::local_today;
use vstd::prelude::*;

verus! {

/// When a session was recorded: the instant (seconds and nanoseconds since
/// the Unix epoch) and the local calendar day it fell on.
#[derive(Clone, Copy, Debug, PartialEq, Eq, Structural)]
pub struct RecordedAt {
    pub day: i32,
    pub unix_seconds: i64,
    pub nanos: u32,
}

#[derive(Clone, Debug)]
pub struct SessionRecord {
    pub date: RecordedAt,
    pub study_minutes: u64,
    pub break_minutes: u64,
    pub cycles_completed: u32,
    pub hours_planned: Vec<u8>,
}

pub struct History {
    pub sessions: Vec<SessionRecord>,
}

/// The records of `s` that fall on `day`, in their order.
pub open spec fn records_on(s: Seq<SessionRecord>, day: int) -> Seq<SessionRecord>
    decreases s.len(),
{
    if s.len() == 0 {
        Seq::empty()
    } else if s.last().date.day == day {
        records_on(s.drop_last(), day).push(s.last())
    } else {
        records_on(s.drop_last(), day)
    }
}

/// The cycles of all records of `r`.
pub open spec fn total_cycles(r: Seq<SessionRecord>) -> nat
    decreases r.len(),
{
    if r.len() == 0 {
        0
    } else {
        total_cycles(r.drop_last()) + r.last().cycles_completed as nat
    }
}

/// The study minutes of all records of `r`: each record's study phase
/// length times its cycles.
pub open spec fn total_minutes(r: Seq<SessionRecord>) -> nat
    decreases r.len(),
{
    if r.len() == 0 {
        0
    } else {
        total_minutes(r.drop_last()) + (r.last().study_minutes as nat) * (r.last().cycles_completed as nat)
    }
}

/// Cycles completed on `day`.
pub open spec fn day_cycles(s: Seq<SessionRecord>, day: int) -> nat {
    total_cycles(records_on(s, day))
}

/// Minutes studied on `day`.
pub open spec fn day_minutes(s: Seq<SessionRecord>, day: int) -> nat {
    total_minutes(records_on(s, day))
}

/// How many records fall on `day` or before.
pub open spec fn count_through(s: Seq<SessionRecord>, day: int) -> nat
    decreases s.len(),
{
    if s.len() == 0 {
        0
    } else {
        count_through(s.drop_last(), day) + if s.last().date.day <= day { 1nat } else { 0nat }
    }
}

/// Some session falls on `day`.
pub open spec fn has_session(s: Seq<SessionRecord>, day: int) -> bool {
    records_on(s, day).len() > 0
}

/// The number of consecutive days with at least one session, ending with `day`.
pub open spec fn run_length(s: Seq<SessionRecord>, day: int) -> nat
    decreases count_through(s, day),
{
    if has_session(s, day) {
        proof {
            lemma_count_drops(s, day);
        }
        1 + run_length(s, day - 1)
    } else {
        0
    }
}

/// The streak: consecutive days with at least one session, ending today, or
/// ending yesterday while today has none yet.
pub open spec fn streak_days(s: Seq<SessionRecord>, today: int) -> nat {
    if has_session(s, today) {
        run_length(s, today)
    } else {
        run_length(s, today - 1)
    }
}

/// Of the `n` days that end with `today`, the days with sessions.
pub open spec fn active_count(s: Seq<SessionRecord>, today: int, n: nat) -> nat
    decreases n,
{
    if n == 0 {
        0
    } else {
        active_count(s, today, (n - 1) as nat) + if has_session(s, today - (n - 1)) {
            1nat
        } else {
            0nat
        }
    }
}

/// The minutes studied over the `n` days that end with `today`.
pub open spec fn window_minutes(s: Seq<SessionRecord>, today: int, n: nat) -> nat
    decreases n,
{
    if n == 0 {
        0
    } else {
        window_minutes(s, today, (n - 1) as nat) + day_minutes(s, today - (n - 1))
    }
}

/// The records behind a sequence of references.
pub open spec fn derefs(v: Seq<&SessionRecord>) -> Seq<SessionRecord> {
    v.map_values(|r: &SessionRecord| *r)
}

/// No more records fall on the day before than on `day` or before.
pub proof fn lemma_count_monotone(s: Seq<SessionRecord>, day: int)
    ensures
        count_through(s, day - 1) <= count_through(s, day),
    decreases s.len(),
{
    if s.len() > 0 {
        lemma_count_monotone(s.drop_last(), day);
    }
}

/// A day with a session holds a record, so fewer records fall before it.
pub proof fn lemma_count_drops(s: Seq<SessionRecord>, day: int)
    requires
        has_session(s, day),
    ensures
        count_through(s, day - 1) < count_through(s, day),
    decreases s.len(),
{
    let init = s.drop_last();
    lemma_count_monotone(init, day);
    if s.last().date.day != day {
        lemma_count_drops(init, day);
    }
}

/// A day with a session is the day of some record.
pub proof fn lemma_day_has_record(s: Seq<SessionRecord>, day: int)
    requires
        has_session(s, day),
    ensures
        exists|k: int| 0 <= k < s.len() && s[k].date.day == day,
    decreases s.len(),
{
    let init = s.drop_last();
    if s.last().date.day == day {
        assert(s[s.len() - 1].date.day == day);
    } else {
        lemma_day_has_record(init, day);
        let k = choose|k: int| 0 <= k < init.len() && init[k].date.day == day;
        assert(s[k] == init[k]);
    }
}

/// The records of one more element are those of the prefix, and the
/// element if it falls on the day.
pub proof fn lemma_records_on_step(s: Seq<SessionRecord>, i: int, day: int)
    requires
        0 <= i < s.len(),
    ensures
        records_on(s.take(i + 1), day) == if s[i].date.day == day {
            records_on(s.take(i), day).push(s[i])
        } else {
            records_on(s.take(i), day)
        },
{
    assert(s.take(i + 1).drop_last() =~= s.take(i));
}

/// Sums over a prefix are at most the sums over the whole.
pub proof fn lemma_prefix_totals(r: Seq<SessionRecord>, i: int)
    requires
        0 <= i <= r.len(),
    ensures
        total_cycles(r.take(i)) <= total_cycles(r),
        total_minutes(r.take(i)) <= total_minutes(r),
    decreases r.len() - i,
{
    if i < r.len() {
        lemma_prefix_totals(r, i + 1);
        assert(r.take(i + 1).drop_last() =~= r.take(i));
    } else {
        assert(r.take(i) =~= r);
    }
}

/// Windows over more days hold at least as many minutes.
pub proof fn lemma_window_monotone(s: Seq<SessionRecord>, today: int, i: nat, n: nat)
    requires
        i <= n,
    ensures
        window_minutes(s, today, i) <= window_minutes(s, today, n),
    decreases n - i,
{
    if i < n {
        lemma_window_monotone(s, today, i, (n - 1) as nat);
    }
}

/// Of `n` days, at most `n` have cycles.
pub proof fn lemma_active_count_bound(s: Seq<SessionRecord>, today: int, n: nat)
    ensures
        active_count(s, today, n) <= n,
    decreases n,
{
    if n > 0 {
        lemma_active_count_bound(s, today, (n - 1) as nat);
    }
}

impl History {
    pub fn new() -> (h: History)
        ensures
            h.sessions@ == Seq::<SessionRecord>::empty(),
    {
        History { sessions: Vec::new() }
    }

    /// Adds a finished session at the end of the record.
    pub fn add_session(&mut self, record: SessionRecord)
        ensures
            final(self).sessions@ == old(self).sessions@.push(record),
    {
        self.sessions.push(record);
    }

    /// Sessions for a given date
    pub fn sessions_on(&self, day: i32) -> (r: Vec<&SessionRecord>)
        ensures
            derefs(r@) == records_on(self.sessions@, day as int),
    {
        self.sessions_on_day(day as i64)
    }

    fn sessions_on_day(&self, day: i64) -> (r: Vec<&SessionRecord>)
        ensures
            derefs(r@) == records_on(self.sessions@, day as int),
    {
        let ghost s = self.sessions@;
        let mut found: Vec<&SessionRecord> = Vec::new();
        let mut i: usize = 0;
        while i < self.sessions.len()
            invariant
                s == self.sessions@,
                i <= s.len(),
                derefs(found@) == records_on(s.take(i as int), day as int),
            decreases s.len() - i,
        {
            let rec = &self.sessions[i];
            proof {
                lemma_records_on_step(s, i as int, day as int);
            }
            if rec.date.day as i64 == day {
                found.push(rec);
                assert(derefs(found@) =~= records_on(s.take(i as int), day as int).push(s[i as int]));
            }
            i = i + 1;
        }
        assert(s.take(s.len() as int) =~= s);
        found
    }

    /// Whether some session falls on `day`.
    fn has_session_on(&self, day: i64) -> (b: bool)
        ensures
            b == has_session(self.sessions@, day as int),
    {
        let found = self.sessions_on_day(day);
        found.len() > 0
    }

    /// Total cycles completed on a date
    pub fn cycles_on(&self, day: i32) -> (n: u32)
        requires
            day_cycles(self.sessions@, day as int) <= u32::MAX,
        ensures
            n == day_cycles(self.sessions@, day as int),
    {
        self.cycles_on_day(day as i64)
    }

    fn cycles_on_day(&self, day: i64) -> (n: u32)
        requires
            day_cycles(self.sessions@, day as int) <= u32::MAX,
        ensures
            n == day_cycles(self.sessions@, day as int),
    {
        let found = self.sessions_on_day(day);
        let ghost r = derefs(found@);
        let mut sum: u32 = 0;
        let mut i: usize = 0;
        while i < found.len()
            invariant
                r == derefs(found@),
                r == records_on(self.sessions@, day as int),
                total_cycles(r) <= u32::MAX,
                i <= found@.len(),
                sum == total_cycles(r.take(i as int)),
            decreases found@.len() - i,
        {
            proof {
                assert(r.take(i + 1).drop_last() =~= r.take(i as int));
                lemma_prefix_totals(r, i + 1);
            }
            sum = sum + found[i].cycles_completed;
            i = i + 1;
        }
        assert(r.take(found@.len() as int) =~= r);
        sum
    }

    /// Total study minutes on a date
    pub fn study_minutes_on(&self, day: i32) -> (m: u64)
        requires
            day_minutes(self.sessions@, day as int) <= u64::MAX,
        ensures
            m == day_minutes(self.sessions@, day as int),
    {
        self.study_minutes_on_day(day as i64)
    }

    fn study_minutes_on_day(&self, day: i64) -> (m: u64)
        requires
            day_minutes(self.sessions@, day as int) <= u64::MAX,
        ensures
            m == day_minutes(self.sessions@, day as int),
    {
        let found = self.sessions_on_day(day);
        let ghost r = derefs(found@);
        let mut sum: u64 = 0;
        let mut i: usize = 0;
        while i < found.len()
            invariant
                r == derefs(found@),
                r == records_on(self.sessions@, day as int),
                total_minutes(r) <= u64::MAX,
                i <= found@.len(),
                sum == total_minutes(r.take(i as int)),
            decreases found@.len() - i,
        {
            proof {
                assert(r.take(i + 1).drop_last() =~= r.take(i as int));
                lemma_prefix_totals(r, i + 1);
            }
            let rec = found[i];
            sum = sum + rec.study_minutes * (rec.cycles_completed as u64);
            i = i + 1;
        }
        assert(r.take(found@.len() as int) =~= r);
        sum
    }

    /// Streak: consecutive days with at least one session, ending today or yesterday
    pub fn streak(&self) -> (n: u32)
        requires
            self.sessions@.len() <= u32::MAX,
        ensures
            exists|today: int| n == streak_days(self.sessions@, today),
    {
        let today = local_today();
        proof {
            lemma_streak_bound(self.sessions@, today as int);
        }
        self.streak_from(today)
    }

    /// The streak as of the local calendar day `today`.
    pub fn streak_from(&self, today: i32) -> (n: u32)
        requires
            streak_days(self.sessions@, today as int) <= u32::MAX,
        ensures
            n == streak_days(self.sessions@, today as int),
    {
        let ghost s = self.sessions@;
        let ghost total = streak_days(s, today as int);
        let today = today as i64;
        let mut streak: u32 = 0;
        let mut day: i64 = today;
        loop
            invariant
                s == self.sessions@,
                total == streak_days(s, today as int),
                total <= u32::MAX,
                i32::MIN - 1 <= day <= today,
                i32::MIN <= today <= i32::MAX,
                day == today ==> streak == 0,
                day < today ==> streak + run_length(s, day as int) == total,
            ensures
                streak == total,
            decreases count_through(s, day as int), if day == today { 1int } else { 0int },
        {
            proof {
                if day < today {
                    lemma_run_nonneg(s, day as int);
                }
            }
            if self.has_session_on(day) {
                proof {
                    lemma_count_drops(s, day as int);
                    lemma_day_has_record(s, day as int);
                    let k = choose|k: int| 0 <= k < s.len() && s[k].date.day == day;
                    assert(s[k].date.day >= i32::MIN);
                }
                streak = streak + 1;
                day = day - 1;
            } else if day == today {
                proof {
                    lemma_count_monotone(s, day as int);
                }
                day = day - 1;
            } else {
                break;
            }
        }
        streak
    }

    /// Days with sessions in the last N days
    pub fn active_days(&self, last_n_days: u32) -> (n: u32)
        ensures
            exists|today: int| n == active_count(self.sessions@, today, last_n_days as nat),
    {
        let today = local_today();
        self.active_days_from(today, last_n_days)
    }

    /// Of the `last_n_days` days that end with `today`, the days with sessions.
    pub fn active_days_from(&self, today: i32, last_n_days: u32) -> (n: u32)
        ensures
            n == active_count(self.sessions@, today as int, last_n_days as nat),
            n <= last_n_days,
    {
        let ghost s = self.sessions@;
        let mut count: u32 = 0;
        let mut i: u32 = 0;
        while i < last_n_days
            invariant
                s == self.sessions@,
                i <= last_n_days,
                count == active_count(s, today as int, i as nat),
                count <= i,
            decreases last_n_days - i,
        {
            let day = today as i64 - i as i64;
            if self.has_session_on(day) {
                count = count + 1;
            }
            i = i + 1;
        }
        count
    }

    /// Total study minutes in the last N days
    pub fn total_minutes_last(&self, last_n_days: u32) -> (m: u64)
        requires
            total_minutes(self.sessions@) <= u64::MAX,
        ensures
            exists|today: int| m == window_minutes(self.sessions@, today, last_n_days as nat),
    {
        let today = local_today();
        proof {
            lemma_window_bound(self.sessions@, today as int, last_n_days as nat);
        }
        self.total_minutes_from(today, last_n_days)
    }

    /// The minutes studied over the `last_n_days` days that end with `today`.
    pub fn total_minutes_from(&self, today: i32, last_n_days: u32) -> (m: u64)
        requires
            window_minutes(self.sessions@, today as int, last_n_days as nat) <= u64::MAX,
        ensures
            m == window_minutes(self.sessions@, today as int, last_n_days as nat),
    {
        let ghost s = self.sessions@;
        let mut sum: u64 = 0;
        let mut i: u32 = 0;
        while i < last_n_days
            invariant
                s == self.sessions@,
                i <= last_n_days,
                window_minutes(s, today as int, last_n_days as nat) <= u64::MAX,
                sum == window_minutes(s, today as int, i as nat),
            decreases last_n_days - i,
        {
            proof {
                lemma_window_monotone(s, today as int, (i + 1) as nat, last_n_days as nat);
            }
            let day = today as i64 - i as i64;
            let m = self.study_minutes_on_day(day);
            sum = sum + m;
            i = i + 1;
        }
        sum
    }
}

/// Run lengths are never negative (a fact of `nat`, stated to unfold it).
proof fn lemma_run_nonneg(s: Seq<SessionRecord>, day: int)
    ensures
        run_length(s, day) >= 0,
{
}

/// Adding a session adds its cycles and minutes to its own day and leaves
/// every other day as it was.
pub proof fn law_add_session(s: Seq<SessionRecord>, r: SessionRecord, day: int)
    ensures
        day_cycles(s.push(r), day) == day_cycles(s, day) + if r.date.day == day {
            r.cycles_completed as nat
        } else {
            0nat
        },
        day_minutes(s.push(r), day) == day_minutes(s, day) + if r.date.day == day {
            (r.study_minutes as nat) * (r.cycles_completed as nat)
        } else {
            0nat
        },
{
    let t = s.push(r);
    assert(t.drop_last() =~= s);
    assert(t.last() == r);
    if r.date.day == day {
        assert(records_on(t, day) == records_on(s, day).push(r));
        assert(records_on(t, day).drop_last() =~= records_on(s, day));
    } else {
        assert(records_on(t, day) == records_on(s, day));
    }
}

/// A run of days ending with `day`: every day of it has a session, and the
/// day before it has none.
pub proof fn law_run_length(s: Seq<SessionRecord>, day: int)
    ensures
        forall|j: int| 0 <= j < run_length(s, day) ==> #[trigger] has_session(s, day - j),
        !has_session(s, day - run_length(s, day)),
    decreases count_through(s, day),
{
    if has_session(s, day) {
        lemma_count_drops(s, day);
        law_run_length(s, day - 1);
        assert forall|j: int| 0 <= j < run_length(s, day) implies #[trigger] has_session(s, day - j) by {
            if j > 0 {
                assert(has_session(s, (day - 1) - (j - 1)));
                assert(day - 1 - (j - 1) == day - j);
            }
        }
        assert(day - 1 - run_length(s, day - 1) == day - run_length(s, day));
    }
}

/// There is a streak exactly when today or yesterday has a session.
pub proof fn law_streak_starts(s: Seq<SessionRecord>, today: int)
    ensures
        streak_days(s, today) > 0 <==> has_session(s, today) || has_session(s, today - 1),
{
    if has_session(s, today) {
        lemma_count_drops(s, today);
    }
    if has_session(s, today - 1) {
        lemma_count_drops(s, today - 1);
    }
}

/// Today counts in the streak as soon as it has a session: the streak is
/// then today plus the run of days with sessions that ends yesterday, one
/// more than the streak counted as of yesterday when yesterday has one too.
pub proof fn law_streak_counts_today(s: Seq<SessionRecord>, today: int)
    ensures
        has_session(s, today) ==> streak_days(s, today) == 1 + run_length(s, today - 1),
        has_session(s, today) && has_session(s, today - 1) ==> streak_days(s, today) == streak_days(
            s,
            today - 1,
        ) + 1,
        !has_session(s, today) ==> streak_days(s, today) == run_length(s, today - 1),
{
}

/// No more records fall on `day` or before than there are records.
pub proof fn lemma_count_bound(s: Seq<SessionRecord>, day: int)
    ensures
        count_through(s, day) <= s.len(),
    decreases s.len(),
{
    if s.len() > 0 {
        lemma_count_bound(s.drop_last(), day);
    }
}

/// A run of days with sessions is no longer than the records that fall on
/// or before its last day.
pub proof fn lemma_run_bound(s: Seq<SessionRecord>, day: int)
    ensures
        run_length(s, day) <= count_through(s, day),
    decreases count_through(s, day),
{
    if has_session(s, day) {
        lemma_count_drops(s, day);
        lemma_run_bound(s, day - 1);
    }
}

/// A streak is no longer than the record has sessions.
pub proof fn lemma_streak_bound(s: Seq<SessionRecord>, today: int)
    ensures
        streak_days(s, today) <= s.len(),
{
    lemma_run_bound(s, today);
    lemma_run_bound(s, today - 1);
    lemma_count_bound(s, today);
    lemma_count_bound(s, today - 1);
}

/// One more record adds its minutes to a window exactly when its day lies in
/// the window.
pub proof fn lemma_window_push(s: Seq<SessionRecord>, r: SessionRecord, today: int, n: nat)
    ensures
        window_minutes(s.push(r), today, n) == window_minutes(s, today, n) + if today - n < r.date.day <= today {
            (r.study_minutes as nat) * (r.cycles_completed as nat)
        } else {
            0nat
        },
    decreases n,
{
    if n > 0 {
        lemma_window_push(s, r, today, (n - 1) as nat);
        law_add_session(s, r, today - (n - 1));
    }
}

/// The minutes of any window of days are at most the minutes of all
/// sessions together.
pub proof fn lemma_window_bound(s: Seq<SessionRecord>, today: int, n: nat)
    ensures
        window_minutes(s, today, n) <= total_minutes(s),
    decreases s.len(),
{
    if s.len() == 0 {
        lemma_window_empty(s, today, n);
    } else {
        let init = s.drop_last();
        let r = s.last();
        assert(s =~= init.push(r));
        lemma_window_push(init, r, today, n);
        lemma_window_bound(init, today, n);
    }
}

/// A record with no sessions has no minutes in any window.
pub proof fn lemma_window_empty(s: Seq<SessionRecord>, today: int, n: nat)
    requires
        s.len() == 0,
    ensures
        window_minutes(s, today, n) == 0,
    decreases n,
{
    if n > 0 {
        lemma_window_empty(s, today, (n - 1) as nat);
        assert(records_on(s, today - (n - 1)) =~= Seq::<SessionRecord>::empty());
    }
}

} // verus!
