//! Time intervals, the schedule of one day, and the schedule of a week.

use crate::error::Error;
use crate::time::{TimeOfDay, Weekday};
use vstd::prelude::*;

verus! {

/// A window of time within a day; its begin lies strictly before its end.
#[derive(Debug, Clone, Copy, PartialEq, Eq, Structural, Hash)]
pub struct Duration {
    begin: TimeOfDay,
    end: TimeOfDay,
}

/// The bounds of the window built from `begin` and `end` are `begin` and `end`.
pub broadcast proof fn lemma_span_bounds(begin: TimeOfDay, end: TimeOfDay)
    ensures
        (#[trigger] Duration::span(begin, end)).begin_time() == begin,
        Duration::span(begin, end).end_time() == end,
{
}

impl Duration {
    #[verifier::type_invariant]
    spec fn ordered(self) -> bool {
        self.begin@ < self.end@
    }

    /// The window from `begin` to `end`, as a value.
    pub closed spec fn span(begin: TimeOfDay, end: TimeOfDay) -> Duration {
        Duration { begin, end }
    }

    pub closed spec fn begin_time(self) -> TimeOfDay {
        self.begin
    }

    pub closed spec fn end_time(self) -> TimeOfDay {
        self.end
    }

    /// Two windows overlap unless one ends strictly before the other begins; windows that
    /// touch at an endpoint overlap.
    pub open spec fn overlaps(self, other: Duration) -> bool {
        !(self.end_time()@ < other.begin_time()@ || other.end_time()@ < self.begin_time()@)
    }

    /// The window holds an instant strictly between its bounds.
    pub open spec fn covers(self, t: TimeOfDay) -> bool {
        self.begin_time()@ < t@ && t@ < self.end_time()@
    }

    /// The window from `begin` to `end`; rejected unless `begin` comes strictly before `end`.
    pub fn new(begin: TimeOfDay, end: TimeOfDay) -> (r: Result<Duration, Error>)
        ensures
            r is Ok <==> begin@ < end@,
            r matches Ok(d) ==> d == Duration::span(begin, end) && d.begin_time() == begin
                && d.end_time() == end,
            r matches Err(e) ==> e == Error::BeginAfterEnd,
    {
        if !begin.is_before(&end) {
            return Err(Error::BeginAfterEnd);
        }
        Ok(Duration { begin, end })
    }

    pub fn begin(&self) -> (r: TimeOfDay)
        ensures
            r == self.begin_time(),
            r@ < self.end_time()@,
    {
        proof {
            use_type_invariant(self);
        }
        self.begin
    }

    pub fn end(&self) -> (r: TimeOfDay)
        ensures
            r == self.end_time(),
            self.begin_time()@ < r@,
    {
        proof {
            use_type_invariant(self);
        }
        self.end
    }

    pub fn is_overlapping(&self, other: &Self) -> (r: bool)
        ensures
            r == self.overlaps(*other),
    {
        if self.end.is_before(&other.begin) {
            return false;
        }
        if other.end.is_before(&self.begin) {
            return false;
        }
        true
    }

    pub fn contains(&self, other: &TimeOfDay) -> (r: bool)
        ensures
            r == self.covers(*other),
    {
        self.begin.is_before(other) && other.is_before(&self.end)
    }
}

/// The windows of one day, no two of which overlap, in the order they were added.
#[derive(Debug)]
pub struct DailySchedule(Vec<Duration>);

impl View for DailySchedule {
    type V = Seq<Duration>;

    closed spec fn view(&self) -> Seq<Duration> {
        self.0@
    }
}

/// No two windows at different positions of `s` overlap.
pub open spec fn pairwise_disjoint(s: Seq<Duration>) -> bool {
    forall|i: int, j: int|
        0 <= i < s.len() && 0 <= j < s.len() && i != j ==> !(#[trigger] s[i]).overlaps(
            #[trigger] s[j],
        )
}

/// Some window of `s` overlaps `d`.
pub open spec fn conflicts(s: Seq<Duration>, d: Duration) -> bool {
    exists|i: int| 0 <= i < s.len() && (#[trigger] s[i]).overlaps(d)
}

/// Some window of `s` holds the instant `t`.
pub open spec fn active_at(s: Seq<Duration>, t: TimeOfDay) -> bool {
    exists|i: int| 0 <= i < s.len() && (#[trigger] s[i]).covers(t)
}

/// `s` with every window equal to `d` left out.
pub open spec fn without(s: Seq<Duration>, d: Duration) -> Seq<Duration> {
    s.filter(|x: Duration| x != d)
}

proof fn lemma_without_push(s: Seq<Duration>, x: Duration, d: Duration)
    ensures
        without(s.push(x), d) == (if x != d {
            without(s, d).push(x)
        } else {
            without(s, d)
        }),
{
    reveal(Seq::filter);
    assert(s.push(x).drop_last() == s);
    assert(s.push(x).last() == x);
}

impl DailySchedule {
    pub open spec fn wf(&self) -> bool {
        pairwise_disjoint(self@)
    }

    /// A day with no windows.
    pub fn new() -> (r: DailySchedule)
        ensures
            r@ == Seq::<Duration>::empty(),
            r.wf(),
    {
        DailySchedule(Vec::new())
    }

    /// The windows, in the order they were added.
    pub fn entries(&self) -> (r: &Vec<Duration>)
        ensures
            r@ == self@,
    {
        &self.0
    }

    /// Adds `duration`, unless it overlaps a window already there; then nothing changes.
    pub fn add_entry(&mut self, duration: Duration) -> (r: Result<(), Error>)
        requires
            old(self).wf(),
        ensures
            final(self).wf(),
            r is Err <==> conflicts(old(self)@, duration),
            r matches Err(e) ==> e == Error::OverlappingDurations && *final(self) == *old(self),
            r is Ok ==> final(self)@ == old(self)@.push(duration),
    {
        let n = self.0.len();
        let mut i: usize = 0;
        while i < n
            invariant
                n == self.0@.len(),
                0 <= i <= n,
                pairwise_disjoint(self.0@),
                forall|k: int| 0 <= k < i ==> !(#[trigger] self.0@[k]).overlaps(duration),
            decreases n - i,
        {
            if self.0[i].is_overlapping(&duration) {
                return Err(Error::OverlappingDurations);
            }
            i = i + 1;
        }
        let ghost before = self.0@;
        self.0.push(duration);
        proof {
            assert(self.0@ == before.push(duration));
            assert forall|a: int, b: int|
                0 <= a < self.0@.len() && 0 <= b < self.0@.len() && a != b implies !(
                #[trigger] self.0@[a]).overlaps(#[trigger] self.0@[b]) by {
                if a < n && b < n {
                    assert(self.0@[a] == before[a]);
                    assert(self.0@[b] == before[b]);
                }
            }
        }
        Ok(())
    }

    /// Removes every window equal to `duration`; where there is none, nothing changes.
    pub fn remove_entry(&mut self, duration: Duration) -> (r: Result<(), Error>)
        requires
            old(self).wf(),
        ensures
            final(self).wf(),
            r is Ok,
            final(self)@ == without(old(self)@, duration),
            !old(self)@.contains(duration) ==> final(self)@ == old(self)@,
    {
        let n = self.0.len();
        let mut kept: Vec<Duration> = Vec::new();
        let mut i: usize = 0;
        while i < n
            invariant
                n == self.0@.len(),
                0 <= i <= n,
                pairwise_disjoint(self.0@),
                kept@ == without(self.0@.subrange(0, i as int), duration),
                !self.0@.subrange(0, i as int).contains(duration) ==> kept@ == self.0@.subrange(
                    0,
                    i as int,
                ),
                pairwise_disjoint(kept@),
                forall|k: int, j: int|
                    0 <= k < kept@.len() && i <= j < n ==> !(#[trigger] kept@[k]).overlaps(
                        #[trigger] self.0@[j],
                    ),
            decreases n - i,
        {
            let item = self.0[i];
            let ghost prefix = self.0@.subrange(0, i as int);
            proof {
                assert(self.0@.subrange(0, i + 1).drop_last() == prefix);
                assert(self.0@.subrange(0, i + 1) == prefix.push(item));
                lemma_without_push(prefix, item, duration);
            }
            if item != duration {
                let ghost kept_before = kept@;
                kept.push(item);
                proof {
                    assert forall|a: int, b: int|
                        0 <= a < kept@.len() && 0 <= b < kept@.len() && a != b implies !(
                        #[trigger] kept@[a]).overlaps(#[trigger] kept@[b]) by {
                        if a < kept_before.len() && b < kept_before.len() {
                            assert(kept@[a] == kept_before[a]);
                            assert(kept@[b] == kept_before[b]);
                        } else if a < kept_before.len() {
                            assert(kept@[a] == kept_before[a]);
                            assert(!kept_before[a].overlaps(self.0@[i as int]));
                        } else {
                            assert(kept@[b] == kept_before[b]);
                            assert(!kept_before[b].overlaps(self.0@[i as int]));
                        }
                    }
                    assert forall|k: int, j: int|
                        0 <= k < kept@.len() && i + 1 <= j < n implies !(
                        #[trigger] kept@[k]).overlaps(#[trigger] self.0@[j]) by {
                        if k < kept_before.len() {
                            assert(kept@[k] == kept_before[k]);
                        } else {
                            assert(kept@[k] == self.0@[i as int]);
                            assert(!self.0@[i as int].overlaps(self.0@[j]));
                        }
                    }
                    if !self.0@.subrange(0, i + 1).contains(duration) {
                        assert(!prefix.contains(duration)) by {
                            if prefix.contains(duration) {
                                let w = choose|w: int| 0 <= w < prefix.len() && prefix[w] == duration;
                                assert(self.0@.subrange(0, i + 1)[w] == duration);
                            }
                        }
                        assert(kept@ == self.0@.subrange(0, i + 1));
                    }
                }
            } else {
                proof {
                    assert(self.0@.subrange(0, i + 1)[i as int] == duration);
                }
            }
            i = i + 1;
        }
        proof {
            assert(self.0@.subrange(0, n as int) == self.0@);
        }
        self.0 = kept;
        Ok(())
    }

    /// Whether some window holds the instant `time`.
    pub fn should_be_running(&self, time: &TimeOfDay) -> (r: bool)
        ensures
            r == active_at(self@, *time),
    {
        let n = self.0.len();
        let mut i: usize = 0;
        while i < n
            invariant
                n == self.0@.len(),
                0 <= i <= n,
                forall|k: int| 0 <= k < i ==> !(#[trigger] self.0@[k]).covers(*time),
            decreases n - i,
        {
            if self.0[i].contains(time) {
                return true;
            }
            i = i + 1;
        }
        false
    }
}

} // verus!

verus! {

/// The windows of each day of the week; every weekday always has its own day schedule.
#[derive(Debug)]
pub struct Schedule {
    mon: DailySchedule,
    tue: DailySchedule,
    wed: DailySchedule,
    thu: DailySchedule,
    fri: DailySchedule,
    sat: DailySchedule,
    sun: DailySchedule,
}

impl Schedule {
    /// The schedule of the day `w`.
    pub closed spec fn day_spec(self, w: Weekday) -> DailySchedule {
        match w {
            Weekday::Mon => self.mon,
            Weekday::Tue => self.tue,
            Weekday::Wed => self.wed,
            Weekday::Thu => self.thu,
            Weekday::Fri => self.fri,
            Weekday::Sat => self.sat,
            Weekday::Sun => self.sun,
        }
    }

    pub open spec fn wf(&self) -> bool {
        forall|w: Weekday| #[trigger] self.day_spec(w).wf()
    }

    /// `self` and `other` agree on every day but `w`.
    pub open spec fn same_except(self, other: Schedule, w: Weekday) -> bool {
        forall|v: Weekday| v != w ==> #[trigger] self.day_spec(v) == other.day_spec(v)
    }

    /// A week with no windows on any day.
    pub fn empty() -> (r: Schedule)
        ensures
            r.wf(),
            forall|w: Weekday| (#[trigger] r.day_spec(w))@ == Seq::<Duration>::empty(),
    {
        Schedule {
            mon: DailySchedule::new(),
            tue: DailySchedule::new(),
            wed: DailySchedule::new(),
            thu: DailySchedule::new(),
            fri: DailySchedule::new(),
            sat: DailySchedule::new(),
            sun: DailySchedule::new(),
        }
    }

    /// The schedule of the day `weekday`.
    pub fn day(&self, weekday: &Weekday) -> (r: &DailySchedule)
        ensures
            *r == self.day_spec(*weekday),
    {
        match weekday {
            Weekday::Mon => &self.mon,
            Weekday::Tue => &self.tue,
            Weekday::Wed => &self.wed,
            Weekday::Thu => &self.thu,
            Weekday::Fri => &self.fri,
            Weekday::Sat => &self.sat,
            Weekday::Sun => &self.sun,
        }
    }

    /// Adds `duration` to the day `weekday`, as `DailySchedule::add_entry` does.
    pub fn add_entry(&mut self, weekday: &Weekday, duration: Duration) -> (r: Result<(), Error>)
        requires
            old(self).wf(),
        ensures
            final(self).wf(),
            final(self).same_except(*old(self), *weekday),
            r is Err <==> conflicts(old(self).day_spec(*weekday)@, duration),
            r matches Err(e) ==> e == Error::OverlappingDurations && *final(self) == *old(self),
            r is Ok ==> final(self).day_spec(*weekday)@ == old(self).day_spec(*weekday)@.push(
                duration,
            ),
    {
        proof {
            assert(self.day_spec(*weekday).wf());
        }
        let r = match weekday {
            Weekday::Mon => self.mon.add_entry(duration),
            Weekday::Tue => self.tue.add_entry(duration),
            Weekday::Wed => self.wed.add_entry(duration),
            Weekday::Thu => self.thu.add_entry(duration),
            Weekday::Fri => self.fri.add_entry(duration),
            Weekday::Sat => self.sat.add_entry(duration),
            Weekday::Sun => self.sun.add_entry(duration),
        };
        proof {
            assert forall|w: Weekday| #[trigger] self.day_spec(w).wf() by {
                assert(old(self).day_spec(w).wf());
            }
        }
        r
    }

    /// Removes every window equal to `duration` from the day `weekday`.
    pub fn remove_entry(&mut self, weekday: &Weekday, duration: Duration) -> (r: Result<(), Error>)
        requires
            old(self).wf(),
        ensures
            final(self).wf(),
            final(self).same_except(*old(self), *weekday),
            r is Ok,
            final(self).day_spec(*weekday)@ == without(old(self).day_spec(*weekday)@, duration),
    {
        proof {
            assert(self.day_spec(*weekday).wf());
        }
        let r = match weekday {
            Weekday::Mon => self.mon.remove_entry(duration),
            Weekday::Tue => self.tue.remove_entry(duration),
            Weekday::Wed => self.wed.remove_entry(duration),
            Weekday::Thu => self.thu.remove_entry(duration),
            Weekday::Fri => self.fri.remove_entry(duration),
            Weekday::Sat => self.sat.remove_entry(duration),
            Weekday::Sun => self.sun.remove_entry(duration),
        };
        proof {
            assert forall|w: Weekday| #[trigger] self.day_spec(w).wf() by {
                assert(old(self).day_spec(w).wf());
            }
        }
        r
    }
}

} // verus!
