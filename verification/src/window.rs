//! Calendar-windowed fetches with the empty-day cut-off.
//!
//! A series that is bounded by the calendar is asked for day by day: day
//! number `n` of a walk covers the half-open window from `start + n` to
//! `start + n + 1`, or, walking backwards, from `start - n - 1` to
//! `start - n`. A day without rows counts against the security; once the
//! count exceeds the threshold, the days that remain are given up.
//!
//! Whether a day with rows clears the count is a choice that changes which
//! series are cut off, so it is made by the caller: see [`EmptyDayPolicy`].

use crate::config::Config;
use crate::datetime::{julian_day_of, CalendarDate};
use vstd::prelude::*;

verus! {

/// What a day with rows does to the count of empty days.
#[derive(Debug, Clone, Copy, PartialEq, Eq, Structural)]
pub enum EmptyDayPolicy {
    /// Nothing: empty days add up over the whole walk.
    Cumulative,
    /// It clears the count: only a run of empty days in a row cuts off.
    Consecutive,
}

/// The days from `from` up to, not including, `till`.
#[derive(Debug, Clone, Copy, PartialEq, Eq, Structural)]
pub struct DayWindow {
    pub from: CalendarDate,
    pub till: CalendarDate,
}

/// What the caller does next.
#[derive(Debug, Clone, Copy, PartialEq, Eq, Structural)]
pub enum WindowStep {
    /// Fetch the window of day number `index`, and record its row count.
    Fetch { index: u32, window: DayWindow },
    /// Day number `index` lies outside the calendar: the walk cannot go on.
    OutOfCalendar { index: u32 },
    /// The walk is over: all days were asked for, or the rest was given up.
    Done,
}

/// What becomes of a fetched day.
#[derive(Debug, Clone, Copy, PartialEq, Eq, Structural)]
pub enum DayVerdict {
    /// The day has rows: write them.
    Ingest,
    /// The day is empty, and the count is within the threshold.
    Skip,
    /// The day is empty and the count exceeds the threshold: the remaining
    /// days of this security are given up.
    Abort,
}

/// The walk over the days of one security.
pub struct WindowWalk {
    start_day: i32,
    num_days: u32,
    reverse: bool,
    threshold: i16,
    policy: EmptyDayPolicy,
    index: u32,
    empty_days: u32,
    aborted: bool,
}

pub struct WalkView {
    /// Julian day number of the start date.
    pub start_day: int,
    pub num_days: nat,
    pub reverse: bool,
    pub threshold: int,
    pub policy: EmptyDayPolicy,
    /// Number of the next day to ask for.
    pub index: nat,
    /// The count of empty days.
    pub empty_days: nat,
    pub aborted: bool,
}

/// The first day and the day after the last of window number `index`, as
/// Julian day numbers.
pub open spec fn window_days(start_day: int, index: int, reverse: bool) -> (int, int) {
    if reverse {
        (start_day - index - 1, start_day - index)
    } else {
        (start_day + index, start_day + index + 1)
    }
}

/// The calendar date of a day number, where the calendar has it.
pub open spec fn date_at(day_number: int) -> Option<CalendarDate> {
    if i32::MIN <= day_number <= i32::MAX {
        CalendarDate::of_day_number(day_number as i32)
    } else {
        None
    }
}

/// A walk before its first day.
pub open spec fn walk_start(
    start_day: int,
    num_days: nat,
    reverse: bool,
    threshold: int,
    policy: EmptyDayPolicy,
) -> WalkView {
    WalkView {
        start_day,
        num_days,
        reverse,
        threshold,
        policy,
        index: 0,
        empty_days: 0,
        aborted: false,
    }
}

/// Whether a walk has nothing left to ask for.
pub open spec fn walk_over(walk: WalkView) -> bool {
    walk.aborted || walk.index >= walk.num_days
}

/// The walk after the next day came back with `rows` rows. A walk that is
/// over stays as it is.
pub open spec fn walk_step(before: WalkView, rows: nat) -> WalkView {
    if walk_over(before) {
        before
    } else if rows == 0 {
        WalkView {
            index: before.index + 1,
            empty_days: before.empty_days + 1,
            aborted: before.empty_days + 1 > before.threshold,
            ..before
        }
    } else {
        WalkView {
            index: before.index + 1,
            empty_days: if before.policy == EmptyDayPolicy::Consecutive {
                0
            } else {
                before.empty_days
            },
            ..before
        }
    }
}

/// The verdict on the next day of a walk that is not over.
pub open spec fn verdict_for(before: WalkView, rows: nat) -> DayVerdict {
    if rows > 0 {
        DayVerdict::Ingest
    } else if before.empty_days + 1 > before.threshold {
        DayVerdict::Abort
    } else {
        DayVerdict::Skip
    }
}

impl View for WindowWalk {
    type V = WalkView;

    closed spec fn view(&self) -> WalkView {
        WalkView {
            start_day: self.start_day as int,
            num_days: self.num_days as nat,
            reverse: self.reverse,
            threshold: self.threshold as int,
            policy: self.policy,
            index: self.index as nat,
            empty_days: self.empty_days as nat,
            aborted: self.aborted,
        }
    }
}

fn checked_date(day_number: i64) -> (date: Option<CalendarDate>)
    ensures
        date == date_at(day_number as int),
{
    if -2147483648 <= day_number && day_number <= 2147483647 {
        CalendarDate::from_day_number(day_number as i32)
    } else {
        None
    }
}

impl WindowWalk {
    #[verifier::type_invariant]
    spec fn counts_in_bounds(self) -> bool {
        self.empty_days <= self.index <= self.num_days
    }

    /// A walk of `num_days` days from the day with the Julian day number
    /// `start_day`.
    pub fn from_day_number(
        start_day: i32,
        num_days: u32,
        reverse: bool,
        threshold: i16,
        policy: EmptyDayPolicy,
    ) -> (walk: WindowWalk)
        ensures
            walk@ == walk_start(
                start_day as int,
                num_days as nat,
                reverse,
                threshold as int,
                policy,
            ),
    {
        WindowWalk {
            start_day,
            num_days,
            reverse,
            threshold,
            policy,
            index: 0,
            empty_days: 0,
            aborted: false,
        }
    }

    /// A walk of `num_days` days from `start`; `None` where `start` is no
    /// day of the calendar.
    pub fn new(
        start: CalendarDate,
        num_days: u32,
        reverse: bool,
        threshold: i16,
        policy: EmptyDayPolicy,
    ) -> (walk: Option<WindowWalk>)
        ensures
            match julian_day_of(start.year, start.month, start.day) {
                Some(start_day) => walk is Some && walk.unwrap()@ == walk_start(
                    start_day as int,
                    num_days as nat,
                    reverse,
                    threshold as int,
                    policy,
                ),
                None => walk is None,
            },
    {
        match start.day_number() {
            Some(start_day) => Some(
                WindowWalk::from_day_number(start_day, num_days, reverse, threshold, policy),
            ),
            None => None,
        }
    }

    /// A walk with the direction and the threshold of the run's settings.
    pub fn configured(
        config: &Config,
        start: CalendarDate,
        num_days: u32,
        policy: EmptyDayPolicy,
    ) -> (walk: Option<WindowWalk>)
        ensures
            match julian_day_of(start.year, start.month, start.day) {
                Some(start_day) => walk is Some && walk.unwrap()@ == walk_start(
                    start_day as int,
                    num_days as nat,
                    config.md_reverse,
                    config.md_day_threshold as int,
                    policy,
                ),
                None => walk is None,
            },
    {
        WindowWalk::new(start, num_days, config.md_reverse, config.md_day_threshold, policy)
    }

    /// The count of empty days so far.
    pub fn empty_days(&self) -> (count: u32)
        ensures
            count == self@.empty_days,
    {
        self.empty_days
    }

    /// Whether the remaining days were given up.
    pub fn is_aborted(&self) -> (aborted: bool)
        ensures
            aborted == self@.aborted,
    {
        self.aborted
    }

    /// What the caller does next: fetch the window of the next day, or
    /// nothing more once the walk is over. A window whose days the calendar
    /// does not have is reported and not fetched.
    pub fn next_window(&self) -> (step: WindowStep)
        ensures
            step == if walk_over(self@) {
                WindowStep::Done
            } else {
                let days = window_days(self@.start_day, self@.index as int, self@.reverse);
                match (date_at(days.0), date_at(days.1)) {
                    (Some(from), Some(till)) => WindowStep::Fetch {
                        index: self@.index as u32,
                        window: DayWindow { from, till },
                    },
                    _ => WindowStep::OutOfCalendar { index: self@.index as u32 },
                }
            },
    {
        proof {
            use_type_invariant(self);
        }
        if self.aborted || self.index >= self.num_days {
            return WindowStep::Done;
        }
        let start: i64 = self.start_day as i64;
        let offset: i64 = self.index as i64;
        let first: i64 = if self.reverse {
            start - offset - 1
        } else {
            start + offset
        };
        match checked_date(first) {
            Some(from) => match checked_date(first + 1) {
                Some(till) => WindowStep::Fetch {
                    index: self.index,
                    window: DayWindow { from, till },
                },
                None => WindowStep::OutOfCalendar { index: self.index },
            },
            None => WindowStep::OutOfCalendar { index: self.index },
        }
    }

    /// Records the row count of the day that was fetched last, and says what
    /// becomes of it; `None` where the walk is over.
    pub fn record(&mut self, rows: usize) -> (verdict: Option<DayVerdict>)
        ensures
            verdict == if walk_over(old(self)@) {
                None
            } else {
                Some(verdict_for(old(self)@, rows as nat))
            },
            final(self)@ == walk_step(old(self)@, rows as nat),
    {
        proof {
            use_type_invariant(&*self);
        }
        if self.aborted || self.index >= self.num_days {
            return None;
        }
        self.index = self.index + 1;
        if rows > 0 {
            match self.policy {
                EmptyDayPolicy::Consecutive => {
                    self.empty_days = 0;
                },
                EmptyDayPolicy::Cumulative => {},
            }
            Some(DayVerdict::Ingest)
        } else {
            self.empty_days = self.empty_days + 1;
            if (self.empty_days as i64) > (self.threshold as i64) {
                self.aborted = true;
                Some(DayVerdict::Abort)
            } else {
                Some(DayVerdict::Skip)
            }
        }
    }
}

/// The walk after the first `count` days came back, day `i` with `rows[i]`
/// rows.
pub open spec fn walk_after(start: WalkView, rows: Seq<nat>, count: int) -> WalkView
    decreases count,
{
    if count <= 0 {
        start
    } else {
        walk_step(walk_after(start, rows, count - 1), rows[count - 1])
    }
}

/// How many of the first `count` days were empty.
pub open spec fn empty_among(rows: Seq<nat>, count: int) -> nat
    decreases count,
{
    if count <= 0 {
        0
    } else if rows[count - 1] == 0 {
        empty_among(rows, count - 1) + 1
    } else {
        empty_among(rows, count - 1)
    }
}

/// The number of empty days that a walk bears: the threshold, and none
/// where the threshold is negative.
pub open spec fn tolerated(threshold: int) -> int {
    if threshold < 0 {
        0
    } else {
        threshold
    }
}

/// Under the cumulative policy a walk is given up exactly when more days
/// came back empty than it bears, however they are spread. Until then it has
/// asked for each day once and counted every empty one.
pub proof fn lemma_cumulative_cut_off(start: WalkView, rows: Seq<nat>, count: int)
    requires
        start.index == 0,
        start.empty_days == 0,
        !start.aborted,
        start.policy == EmptyDayPolicy::Cumulative,
        0 <= count <= rows.len(),
        count <= start.num_days,
    ensures
        walk_after(start, rows, count).aborted <==> empty_among(rows, count) > tolerated(
            start.threshold,
        ),
        !walk_after(start, rows, count).aborted ==> {
            &&& walk_after(start, rows, count).index == count
            &&& walk_after(start, rows, count).empty_days == empty_among(rows, count)
        },
        walk_after(start, rows, count).index <= count,
        walk_after(start, rows, count).num_days == start.num_days,
        walk_after(start, rows, count).threshold == start.threshold,
        walk_after(start, rows, count).policy == start.policy,
    decreases count,
{
    if count > 0 {
        lemma_cumulative_cut_off(start, rows, count - 1);
    }
}

/// How many days in a row, up to the last of the first `count`, were empty.
pub open spec fn empty_run(rows: Seq<nat>, count: int) -> nat
    decreases count,
{
    if count <= 0 {
        0
    } else if rows[count - 1] == 0 {
        empty_run(rows, count - 1) + 1
    } else {
        0
    }
}

/// Under the consecutive policy a walk is given up exactly when more days
/// in a row came back empty than it bears. Until then it has asked for each
/// day once, and its count is the length of the run of empty days that it
/// is in.
pub proof fn lemma_consecutive_cut_off(start: WalkView, rows: Seq<nat>, count: int)
    requires
        start.index == 0,
        start.empty_days == 0,
        !start.aborted,
        start.policy == EmptyDayPolicy::Consecutive,
        0 <= count <= rows.len(),
        count <= start.num_days,
    ensures
        walk_after(start, rows, count).aborted <==> exists|k: int|
            0 <= k <= count && #[trigger] empty_run(rows, k) > tolerated(start.threshold),
        !walk_after(start, rows, count).aborted ==> {
            &&& walk_after(start, rows, count).index == count
            &&& walk_after(start, rows, count).empty_days == empty_run(rows, count)
        },
        walk_after(start, rows, count).index <= count,
        walk_after(start, rows, count).num_days == start.num_days,
        walk_after(start, rows, count).threshold == start.threshold,
        walk_after(start, rows, count).policy == start.policy,
    decreases count,
{
    if count > 0 {
        lemma_consecutive_cut_off(start, rows, count - 1);
        let before = walk_after(start, rows, count - 1);
        if before.aborted {
            let k = choose|k: int|
                0 <= k <= count - 1 && #[trigger] empty_run(rows, k) > tolerated(start.threshold);
            assert(0 <= k <= count && empty_run(rows, k) > tolerated(start.threshold));
        } else if walk_after(start, rows, count).aborted {
            assert(empty_run(rows, count) > tolerated(start.threshold));
        } else {
            assert forall|k: int| 0 <= k <= count implies !(#[trigger] empty_run(rows, k)
                > tolerated(start.threshold)) by {
                if k < count {
                }
            }
        }
    } else {
        assert forall|k: int| 0 <= k <= count implies !(#[trigger] empty_run(rows, k) > tolerated(
            start.threshold,
        )) by {}
    }
}

} // verus!
