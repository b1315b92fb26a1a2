//! The day's schedule: one block per hour, planned, studied or done.

use crate::clock::local_hour;
use crate::timer::Fraction;
use vstd::prelude::*;

verus! {

/// Hours in the day, one block each.
pub const HOURS: usize = 24;

#[derive(Clone, Copy, Debug, PartialEq, Eq, Structural)]
pub enum BlockState {
    Unplanned,
    Planned,
    /// The block being studied now, with the share of its study phase that is over.
    Active { progress: Fraction },
    /// A studied block; `order` counts the blocks completed before it.
    Completed { order: usize },
}

pub struct Schedule {
    pub blocks: [BlockState; 24],
    pub current_hour: u8,
    /// How many blocks have been completed.
    completed_count: usize,
}

pub struct ScheduleView {
    pub blocks: Seq<BlockState>,
    pub current_hour: nat,
    pub completed_count: nat,
}

impl View for Schedule {
    type V = ScheduleView;

    closed spec fn view(&self) -> ScheduleView {
        ScheduleView {
            blocks: self.blocks@,
            current_hour: self.current_hour as nat,
            completed_count: self.completed_count as nat,
        }
    }
}

/// An hour as an index, if there is one.
pub open spec fn hour_index(h: Option<u8>) -> Option<int> {
    match h {
        Some(x) => Some(x as int),
        None => None,
    }
}

pub open spec fn is_planned(s: BlockState) -> bool {
    s is Planned
}

pub open spec fn is_active(s: BlockState) -> bool {
    s is Active
}

pub open spec fn is_completed(s: BlockState) -> bool {
    s is Completed
}

/// Block `i` is the first of `b` that satisfies `p`.
pub open spec fn is_first(b: Seq<BlockState>, p: spec_fn(BlockState) -> bool, i: int) -> bool {
    &&& 0 <= i < b.len()
    &&& p(b[i])
    &&& forall|j: int| 0 <= j < i ==> !p(#[trigger] b[j])
}

/// The first block of `b` that satisfies `p`, if there is one.
pub open spec fn first_where(b: Seq<BlockState>, p: spec_fn(BlockState) -> bool) -> Option<int> {
    if exists|i: int| is_first(b, p, i) {
        Some(choose|i: int| is_first(b, p, i))
    } else {
        None
    }
}

/// The number of completed blocks in `b`.
pub open spec fn completed_in(b: Seq<BlockState>) -> nat
    decreases b.len(),
{
    if b.len() == 0 {
        0
    } else {
        completed_in(b.drop_last()) + if is_completed(b.last()) { 1nat } else { 0nat }
    }
}

/// The schedule with `hour` as its current hour, and the same blocks.
pub open spec fn at_hour(s: ScheduleView, hour: nat) -> ScheduleView {
    ScheduleView { current_hour: hour, ..s }
}

/// A fresh schedule: nothing planned, nothing completed.
pub open spec fn empty_schedule(hour: nat) -> ScheduleView {
    ScheduleView { blocks: Seq::new(24, |i: int| BlockState::Unplanned), current_hour: hour, completed_count: 0 }
}

/// Toggling flips an hour between planned and unplanned, for the current
/// hour or a later one; an active or completed hour, an hour already past,
/// or one past the day stays as it is.
pub open spec fn toggled(s: ScheduleView, hour: int) -> ScheduleView {
    if s.current_hour <= hour < 24 {
        match s.blocks[hour] {
            BlockState::Unplanned => ScheduleView { blocks: s.blocks.update(hour, BlockState::Planned), ..s },
            BlockState::Planned => ScheduleView { blocks: s.blocks.update(hour, BlockState::Unplanned), ..s },
            _ => s,
        }
    } else {
        s
    }
}

/// Selecting an hour plans it if it is free (and not already past); any
/// other hour stays as it is.
pub open spec fn selected(s: ScheduleView, hour: int) -> ScheduleView {
    if 0 <= hour < s.blocks.len() && s.blocks[hour] is Unplanned {
        toggled(s, hour)
    } else {
        s
    }
}

/// Every planned hour made unplanned again.
pub open spec fn cleared(s: ScheduleView) -> ScheduleView {
    ScheduleView {
        blocks: s.blocks.map_values(|b: BlockState| if is_planned(b) { BlockState::Unplanned } else { b }),
        ..s
    }
}

/// Some hour still planned or being studied.
pub open spec fn any_planned(s: ScheduleView) -> bool {
    exists|i: int| 0 <= i < s.blocks.len() && (is_planned(#[trigger] s.blocks[i]) || is_active(s.blocks[i]))
}

/// The earliest planned hour becomes active, with no progress yet; the hour
/// is returned, or nothing changes when no hour is planned.
pub open spec fn activated(s: ScheduleView) -> (ScheduleView, Option<int>) {
    match first_where(s.blocks, |b: BlockState| is_planned(b)) {
        Some(i) => (
            ScheduleView {
                blocks: s.blocks.update(i, BlockState::Active { progress: Fraction { num: 0, den: 1 } }),
                ..s
            },
            Some(i),
        ),
        None => (s, None),
    }
}

/// The earliest active block takes `progress`.
pub open spec fn progressed(s: ScheduleView, progress: Fraction) -> ScheduleView {
    match first_where(s.blocks, |b: BlockState| is_active(b)) {
        Some(i) => ScheduleView { blocks: s.blocks.update(i, BlockState::Active { progress }), ..s },
        None => s,
    }
}

/// The earliest active block is completed, numbered after those completed before.
pub open spec fn completed(s: ScheduleView) -> ScheduleView {
    match first_where(s.blocks, |b: BlockState| is_active(b)) {
        Some(i) => ScheduleView {
            blocks: s.blocks.update(i, BlockState::Completed { order: s.completed_count as usize }),
            completed_count: s.completed_count + 1,
            ..s
        },
        None => s,
    }
}

/// The count of completed blocks is right, and their numbers are distinct
/// and below it: the completed blocks are numbered 0, 1, ... in the order
/// in which they were completed.
pub open spec fn schedule_wf(s: ScheduleView) -> bool {
    &&& s.blocks.len() == 24
    &&& s.completed_count == completed_in(s.blocks)
    &&& forall|i: int|
        0 <= i < s.blocks.len() && is_completed(#[trigger] s.blocks[i]) ==> s.blocks[i]->order
            < s.completed_count
    &&& forall|i: int, j: int|
        0 <= i < s.blocks.len() && 0 <= j < s.blocks.len() && i != j && is_completed(
            #[trigger] s.blocks[i],
        ) && is_completed(#[trigger] s.blocks[j]) ==> s.blocks[i]->order != s.blocks[j]->order
}

/// Replacing one block changes the count of completed blocks by what left
/// and what came.
pub proof fn lemma_completed_in_update(b: Seq<BlockState>, k: int, x: BlockState)
    requires
        0 <= k < b.len(),
    ensures
        completed_in(b.update(k, x)) + (if is_completed(b[k]) { 1int } else { 0int }) == completed_in(b)
            + (if is_completed(x) { 1int } else { 0int }),
    decreases b.len(),
{
    let u = b.update(k, x);
    if k == b.len() - 1 {
        assert(u.drop_last() =~= b.drop_last());
    } else {
        assert(u.drop_last() =~= b.drop_last().update(k, x));
        lemma_completed_in_update(b.drop_last(), k, x);
    }
}

/// No more blocks are completed than there are blocks.
pub proof fn lemma_completed_in_bound(b: Seq<BlockState>)
    ensures
        completed_in(b) <= b.len(),
    decreases b.len(),
{
    if b.len() > 0 {
        lemma_completed_in_bound(b.drop_last());
    }
}

/// A first block that satisfies `p` is the one `first_where` names.
pub proof fn lemma_first_where(b: Seq<BlockState>, p: spec_fn(BlockState) -> bool, i: int)
    requires
        is_first(b, p, i),
    ensures
        first_where(b, p) == Some(i),
{
    let k = choose|k: int| is_first(b, p, k);
    assert(is_first(b, p, k));
    if k < i {
        assert(!p(b[k]));
    } else if i < k {
        assert(!p(b[i]));
    }
}

/// With no block satisfying `p`, `first_where` names none.
pub proof fn lemma_first_where_none(b: Seq<BlockState>, p: spec_fn(BlockState) -> bool)
    requires
        forall|j: int| 0 <= j < b.len() ==> !p(#[trigger] b[j]),
    ensures
        first_where(b, p) is None,
{
}

impl Schedule {
    /// A schedule has a block for each hour of the day.
    pub proof fn lemma_day_long(&self)
        ensures
            self@.blocks.len() == 24,
    {
    }

    /// The block of hour `hour`.
    pub fn block(&self, hour: usize) -> (b: BlockState)
        requires
            hour < 24,
        ensures
            b == self@.blocks[hour as int],
    {
        self.blocks[hour]
    }

    /// The current hour.
    pub fn hour(&self) -> (h: u8)
        ensures
            h == self@.current_hour,
    {
        self.current_hour
    }

    pub open spec fn wf(&self) -> bool {
        schedule_wf(self@)
    }

    /// An empty schedule for the current hour of the local clock.
    pub fn new() -> (s: Schedule)
        ensures
            exists|h: nat| h < 24 && s@ == empty_schedule(h),
            s.wf(),
    {
        let hour = local_hour();
        Schedule::starting_at(hour)
    }

    /// An empty schedule whose current hour is `hour`.
    pub fn starting_at(hour: u8) -> (s: Schedule)
        ensures
            s@ == empty_schedule(hour as nat),
            s.wf(),
    {
        let s = Schedule { blocks: [BlockState::Unplanned; 24], current_hour: hour, completed_count: 0 };
        assert(s.blocks@ =~= Seq::new(24, |i: int| BlockState::Unplanned));
        proof {
            lemma_completed_in_none(s.blocks@);
        }
        s
    }

    /// Toggle a block between Planned and Unplanned (only current or future)
    pub fn toggle_block(&mut self, hour: usize)
        requires
            old(self).wf(),
        ensures
            final(self)@ == toggled(old(self)@, hour as int),
            final(self).wf(),
    {
        if hour >= HOURS || hour < self.current_hour as usize {
            return;
        }
        let ghost b = self.blocks@;
        match self.blocks[hour] {
            BlockState::Unplanned => {
                self.blocks[hour] = BlockState::Planned;
                proof {
                    lemma_completed_in_update(b, hour as int, BlockState::Planned);
                }
            },
            BlockState::Planned => {
                self.blocks[hour] = BlockState::Unplanned;
                proof {
                    lemma_completed_in_update(b, hour as int, BlockState::Unplanned);
                }
            },
            _ => {},
        }
        assert(self@ == toggled(old(self)@, hour as int));
    }

    /// Plan a block if it is free (only current or future)
    pub fn select_block(&mut self, hour: usize)
        requires
            old(self).wf(),
        ensures
            final(self)@ == selected(old(self)@, hour as int),
            final(self).wf(),
    {
        if hour < HOURS && matches!(self.blocks[hour], BlockState::Unplanned) {
            self.toggle_block(hour);
        }
    }

    /// Clear all planned blocks
    pub fn clear_all(&mut self)
        requires
            old(self).wf(),
        ensures
            final(self)@ == cleared(old(self)@),
            final(self).wf(),
    {
        let ghost start = self.blocks@;
        let mut i: usize = 0;
        while i < HOURS
            invariant
                i <= 24,
                self.blocks@.len() == 24,
                start.len() == 24,
                self.completed_count == old(self).completed_count,
                self.current_hour == old(self).current_hour,
                completed_in(self.blocks@) == completed_in(start),
                forall|j: int| 0 <= j < i ==> self.blocks@[j] == (if is_planned(#[trigger] start[j]) { BlockState::Unplanned } else { start[j] }),
                forall|j: int| i <= j < 24 ==> self.blocks@[j] == #[trigger] start[j],
            decreases 24 - i,
        {
            if matches!(self.blocks[i], BlockState::Planned) {
                let ghost b = self.blocks@;
                self.blocks[i] = BlockState::Unplanned;
                proof {
                    lemma_completed_in_update(b, i as int, BlockState::Unplanned);
                }
            }
            i = i + 1;
        }
        assert(self.blocks@ =~= cleared(old(self)@).blocks);
    }

    /// Check if any blocks are planned or active
    pub fn has_planned(&self) -> (r: bool)
        ensures
            r == any_planned(self@),
    {
        let mut i: usize = 0;
        while i < HOURS
            invariant
                i <= 24,
                self.blocks@.len() == 24,
                forall|j: int| 0 <= j < i ==> !is_planned(#[trigger] self.blocks@[j]) && !is_active(self.blocks@[j]),
            decreases 24 - i,
        {
            if matches!(self.blocks[i], BlockState::Planned | BlockState::Active { .. }) {
                assert(is_planned(self@.blocks[i as int]) || is_active(self@.blocks[i as int]));
                return true;
            }
            i = i + 1;
        }
        false
    }

    /// Activate the next planned block. Returns the hour if found.
    pub fn activate_next(&mut self) -> (r: Option<u8>)
        requires
            old(self).wf(),
        ensures
            (final(self)@, hour_index(r)) == activated(old(self)@),
            final(self).wf(),
    {
        let mut i: usize = 0;
        while i < HOURS
            invariant
                i <= 24,
                self.blocks@.len() == 24,
                self@ == old(self)@,
                schedule_wf(self@),
                forall|j: int| 0 <= j < i ==> !is_planned(#[trigger] self.blocks@[j]),
            decreases 24 - i,
        {
            if matches!(self.blocks[i], BlockState::Planned) {
                let ghost b = self.blocks@;
                proof {
                    lemma_first_where(b, |s: BlockState| is_planned(s), i as int);
                }
                let fresh = BlockState::Active { progress: Fraction { num: 0, den: 1 } };
                self.blocks[i] = fresh;
                proof {
                    lemma_completed_in_update(b, i as int, fresh);
                }
                return Some(i as u8);
            }
            i = i + 1;
        }
        proof {
            lemma_first_where_none(self.blocks@, |s: BlockState| is_planned(s));
        }
        None
    }

    /// Update progress on the currently active block
    pub fn update_active_progress(&mut self, progress: Fraction)
        requires
            old(self).wf(),
        ensures
            final(self)@ == progressed(old(self)@, progress),
            final(self).wf(),
    {
        let mut i: usize = 0;
        while i < HOURS
            invariant
                i <= 24,
                self.blocks@.len() == 24,
                self@ == old(self)@,
                schedule_wf(self@),
                forall|j: int| 0 <= j < i ==> !is_active(#[trigger] self.blocks@[j]),
            decreases 24 - i,
        {
            if matches!(self.blocks[i], BlockState::Active { .. }) {
                let ghost b = self.blocks@;
                proof {
                    lemma_first_where(b, |s: BlockState| is_active(s), i as int);
                }
                self.blocks[i] = BlockState::Active { progress };
                proof {
                    lemma_completed_in_update(b, i as int, BlockState::Active { progress });
                }
                return;
            }
            i = i + 1;
        }
        proof {
            lemma_first_where_none(self.blocks@, |s: BlockState| is_active(s));
        }
    }

    /// Mark the current active block as completed
    pub fn complete_active(&mut self)
        requires
            old(self).wf(),
        ensures
            final(self)@ == completed(old(self)@),
            final(self).wf(),
    {
        let mut i: usize = 0;
        while i < HOURS
            invariant
                i <= 24,
                self.blocks@.len() == 24,
                self@ == old(self)@,
                schedule_wf(self@),
                forall|j: int| 0 <= j < i ==> !is_active(#[trigger] self.blocks@[j]),
            decreases 24 - i,
        {
            if matches!(self.blocks[i], BlockState::Active { .. }) {
                let ghost b = self.blocks@;
                proof {
                    lemma_first_where(b, |s: BlockState| is_active(s), i as int);
                    lemma_completed_in_bound(b);
                }
                let done = BlockState::Completed { order: self.completed_count };
                self.blocks[i] = done;
                self.completed_count = self.completed_count + 1;
                proof {
                    lemma_completed_in_update(b, i as int, done);
                }
                return;
            }
            i = i + 1;
        }
        proof {
            lemma_first_where_none(self.blocks@, |s: BlockState| is_active(s));
        }
    }

    /// Number of completed blocks
    pub fn completed_total(&self) -> (n: usize)
        ensures
            n == self@.completed_count,
    {
        self.completed_count
    }

    /// Refresh current hour from system clock
    pub fn refresh_hour(&mut self)
        ensures
            exists|h: nat| h < 24 && final(self)@ == #[trigger] at_hour(old(self)@, h),
    {
        let hour = local_hour();
        self.set_hour(hour);
    }

    /// Makes `hour` the current hour; the blocks stay as they are.
    pub fn set_hour(&mut self, hour: u8)
        ensures
            final(self)@ == at_hour(old(self)@, hour as nat),
    {
        self.current_hour = hour;
    }
}

/// A schedule with no completed block counts none.
pub proof fn lemma_completed_in_none(b: Seq<BlockState>)
    requires
        forall|j: int| 0 <= j < b.len() ==> !is_completed(#[trigger] b[j]),
    ensures
        completed_in(b) == 0,
    decreases b.len(),
{
    if b.len() > 0 {
        lemma_completed_in_none(b.drop_last());
    }
}

/// Toggling an hour twice puts the schedule back as it was.
pub proof fn law_toggle_twice(s: ScheduleView, hour: int)
    requires
        s.blocks.len() == 24,
    ensures
        toggled(toggled(s, hour), hour) == s,
{
    if s.current_hour <= hour < 24 {
        match s.blocks[hour] {
            BlockState::Unplanned => {
                assert(s.blocks.update(hour, BlockState::Planned).update(hour, BlockState::Unplanned) =~= s.blocks);
            },
            BlockState::Planned => {
                assert(s.blocks.update(hour, BlockState::Unplanned).update(hour, BlockState::Planned) =~= s.blocks);
            },
            _ => {},
        }
    }
}

/// Toggling touches its own hour only, only planned and unplanned hours, and
/// never an hour already past.
pub proof fn law_toggle_is_local(s: ScheduleView, hour: int, other: int)
    requires
        s.blocks.len() == 24,
        0 <= other < 24,
    ensures
        other != hour ==> toggled(s, hour).blocks[other] == s.blocks[other],
        !(s.blocks[other] is Planned || s.blocks[other] is Unplanned) ==> toggled(s, hour).blocks[other]
            == s.blocks[other],
        other < s.current_hour ==> toggled(s, hour).blocks[other] == s.blocks[other],
        toggled(s, hour).completed_count == s.completed_count,
        toggled(s, hour).current_hour == s.current_hour,
{
}

/// Activation takes the earliest planned hour: it becomes active, every
/// earlier hour was not planned, and no other hour changes. It finds no
/// hour exactly when none is planned.
pub proof fn law_activate_earliest(s: ScheduleView)
    ensures
        activated(s).1 is None <==> forall|j: int| 0 <= j < s.blocks.len() ==> !(#[trigger] s.blocks[j] is Planned),
        activated(s).1 matches Some(i) ==> {
            &&& 0 <= i < s.blocks.len()
            &&& s.blocks[i] is Planned
            &&& activated(s).0.blocks[i] is Active
            &&& forall|j: int| 0 <= j < i ==> !(#[trigger] s.blocks[j] is Planned)
            &&& forall|j: int| 0 <= j < s.blocks.len() && j != i ==> #[trigger] activated(s).0.blocks[j] == s.blocks[j]
        },
{
    let p = |b: BlockState| is_planned(b);
    if exists|j: int| 0 <= j < s.blocks.len() && is_planned(#[trigger] s.blocks[j]) {
        let j = choose|j: int| 0 <= j < s.blocks.len() && is_planned(#[trigger] s.blocks[j]);
        assert(p(s.blocks[j]));
        lemma_first_exists(s.blocks, p, j);
    }
    if let Some(i) = activated(s).1 {
        assert(is_first(s.blocks, p, i));
        assert forall|j: int| 0 <= j < i implies !(#[trigger] s.blocks[j] is Planned) by {
            assert(!p(s.blocks[j]));
        }
    }
}

/// Clearing leaves no hour planned, changes no other hour, and clearing
/// again changes nothing.
pub proof fn law_clear(s: ScheduleView)
    ensures
        forall|j: int| 0 <= j < s.blocks.len() ==> !(#[trigger] cleared(s).blocks[j] is Planned),
        forall|j: int| 0 <= j < s.blocks.len() && !(s.blocks[j] is Planned) ==> #[trigger] cleared(s).blocks[j] == s.blocks[j],
        cleared(cleared(s)) == cleared(s),
{
    assert(cleared(cleared(s)).blocks =~= cleared(s).blocks);
}

/// Completing the active hour numbers it after all hours completed before
/// and keeps the numbering sound.
pub proof fn law_complete_numbers(s: ScheduleView)
    requires
        schedule_wf(s),
        exists|j: int| 0 <= j < s.blocks.len() && is_active(#[trigger] s.blocks[j]),
    ensures
        schedule_wf(completed(s)),
        completed(s).completed_count == s.completed_count + 1,
        exists|i: int|
            0 <= i < s.blocks.len() && s.blocks[i] is Active && #[trigger] completed(s).blocks[i] == (BlockState::Completed {
                order: s.completed_count as usize,
            }),
{
    let p = |b: BlockState| is_active(b);
    let j = choose|j: int| 0 <= j < s.blocks.len() && is_active(#[trigger] s.blocks[j]);
    assert(p(s.blocks[j]));
    lemma_first_exists(s.blocks, p, j);
    let i = first_where(s.blocks, p)->0;
    assert(is_first(s.blocks, p, i));
    let x = BlockState::Completed { order: s.completed_count as usize };
    lemma_completed_in_update(s.blocks, i, x);
    lemma_completed_in_bound(s.blocks);
    assert(completed(s).blocks[i] == x);
}

/// Where some block satisfies `p`, a first one does.
pub proof fn lemma_first_exists(b: Seq<BlockState>, p: spec_fn(BlockState) -> bool, i: int)
    requires
        0 <= i < b.len(),
        p(b[i]),
    ensures
        exists|k: int| is_first(b, p, k),
    decreases i,
{
    if forall|j: int| 0 <= j < i ==> !p(#[trigger] b[j]) {
        assert(is_first(b, p, i));
    } else {
        let j = choose|j: int| 0 <= j < i && p(#[trigger] b[j]);
        lemma_first_exists(b, p, j);
    }
}

/// Some block of `b` is the completed block numbered `k`.
pub open spec fn numbered(b: Seq<BlockState>, k: int) -> bool {
    exists|i: int| 0 <= i < b.len() && #[trigger] b[i] == (BlockState::Completed { order: k as usize })
}

/// Completed blocks whose numbers are distinct and lie in the finite set
/// `numbers` are no more than `numbers` has members.
pub proof fn lemma_numbers_fit(b: Seq<BlockState>, numbers: Set<int>)
    requires
        numbers.finite(),
        forall|i: int| 0 <= i < b.len() && is_completed(#[trigger] b[i]) ==> numbers.contains(b[i]->order as int),
        forall|i: int, j: int|
            0 <= i < b.len() && 0 <= j < b.len() && i != j && is_completed(#[trigger] b[i]) && is_completed(
                #[trigger] b[j],
            ) ==> b[i]->order != b[j]->order,
    ensures
        completed_in(b) <= numbers.len(),
    decreases b.len(),
{
    if b.len() > 0 {
        let init = b.drop_last();
        let last = b.len() - 1;
        if is_completed(b[last]) {
            let o = b[last]->order as int;
            let rest = numbers.remove(o);
            vstd::set::axiom_set_remove_finite(numbers, o);
            vstd::set::axiom_set_remove_len(numbers, o);
            assert forall|i: int| 0 <= i < init.len() && is_completed(#[trigger] init[i]) implies rest.contains(
                init[i]->order as int,
            ) by {
                assert(init[i] == b[i]);
                assert(b[i]->order != b[last]->order);
            }
            assert forall|i: int, j: int|
                0 <= i < init.len() && 0 <= j < init.len() && i != j && is_completed(#[trigger] init[i])
                    && is_completed(#[trigger] init[j]) implies init[i]->order != init[j]->order by {
                assert(init[i] == b[i] && init[j] == b[j]);
            }
            lemma_numbers_fit(init, rest);
        } else {
            assert forall|i: int, j: int|
                0 <= i < init.len() && 0 <= j < init.len() && i != j && is_completed(#[trigger] init[i])
                    && is_completed(#[trigger] init[j]) implies init[i]->order != init[j]->order by {
                assert(init[i] == b[i] && init[j] == b[j]);
            }
            assert forall|i: int| 0 <= i < init.len() && is_completed(#[trigger] init[i]) implies numbers.contains(
                init[i]->order as int,
            ) by {
                assert(init[i] == b[i]);
            }
            lemma_numbers_fit(init, numbers);
        }
    }
}

/// The completed blocks are numbered exactly 0, 1, ..., up to one less than
/// the count of completed blocks, each number once.
pub proof fn law_completed_numbering(s: ScheduleView)
    requires
        schedule_wf(s),
    ensures
        forall|k: int| 0 <= k < s.completed_count ==> #[trigger] numbered(s.blocks, k),
        forall|i: int|
            0 <= i < s.blocks.len() && is_completed(#[trigger] s.blocks[i]) ==> s.blocks[i]->order < s.completed_count,
        forall|i: int, j: int|
            0 <= i < s.blocks.len() && 0 <= j < s.blocks.len() && i != j && is_completed(#[trigger] s.blocks[i])
                && is_completed(#[trigger] s.blocks[j]) ==> s.blocks[i]->order != s.blocks[j]->order,
{
    let n = s.completed_count as int;
    assert forall|k: int| 0 <= k < n implies #[trigger] numbered(s.blocks, k) by {
        if !numbered(s.blocks, k) {
            let numbers = vstd::set_lib::set_int_range(0, n).remove(k);
            vstd::set_lib::lemma_int_range(0, n);
            vstd::set::axiom_set_remove_len(vstd::set_lib::set_int_range(0, n), k);
            vstd::set::axiom_set_remove_finite(vstd::set_lib::set_int_range(0, n), k);
            assert forall|i: int| 0 <= i < s.blocks.len() && is_completed(#[trigger] s.blocks[i]) implies numbers.contains(
                s.blocks[i]->order as int,
            ) by {
                if s.blocks[i]->order as int == k {
                    assert(s.blocks[i] == (BlockState::Completed { order: k as usize }));
                }
            }
            lemma_numbers_fit(s.blocks, numbers);
            assert(false);
        }
    }
}

/// Completed blocks stay as they are under every schedule operation.
pub proof fn law_completed_blocks_stay(s: ScheduleView, hour: int, p: Fraction, h: nat, i: int)
    requires
        s.blocks.len() == 24,
        0 <= i < s.blocks.len(),
        is_completed(s.blocks[i]),
    ensures
        toggled(s, hour).blocks[i] == s.blocks[i],
        cleared(s).blocks[i] == s.blocks[i],
        activated(s).0.blocks[i] == s.blocks[i],
        progressed(s, p).blocks[i] == s.blocks[i],
        completed(s).blocks[i] == s.blocks[i],
        at_hour(s, h).blocks[i] == s.blocks[i],
{
    let pp = |b: BlockState| is_planned(b);
    let pa = |b: BlockState| is_active(b);
    if let Some(k) = first_where(s.blocks, pp) {
        if exists|k: int| is_first(s.blocks, pp, k) {
            assert(is_first(s.blocks, pp, k));
        }
    }
    if let Some(k) = first_where(s.blocks, pa) {
        if exists|k: int| is_first(s.blocks, pa, k) {
            assert(is_first(s.blocks, pa, k));
        }
    }
}

} // verus!
