//! Weekdays, times of day and calendar timestamps.

use vstd::arithmetic::div_mod::lemma_fundamental_div_mod_converse;
use vstd::prelude::*;

verus! {

/// Nanoseconds in one second.
pub const NANOS_PER_SEC: u32 = 1_000_000_000;

/// Seconds in one day.
pub const SECS_PER_DAY: u32 = 86_400;

/// A day of the week, Monday first.
#[derive(Debug, Clone, Copy, PartialEq, Eq, Structural, Hash)]
pub enum Weekday {
    Mon,
    Tue,
    Wed,
    Thu,
    Fri,
    Sat,
    Sun,
}

impl Weekday {
    /// Position of the day in a Monday-first week, from 0 to 6.
    pub open spec fn index(self) -> int {
        match self {
            Weekday::Mon => 0,
            Weekday::Tue => 1,
            Weekday::Wed => 2,
            Weekday::Thu => 3,
            Weekday::Fri => 4,
            Weekday::Sat => 5,
            Weekday::Sun => 6,
        }
    }

    /// The day at position `i` of a Monday-first week.
    pub open spec fn from_index_spec(i: int) -> Weekday
        recommends
            0 <= i < 7,
    {
        if i == 0 {
            Weekday::Mon
        } else if i == 1 {
            Weekday::Tue
        } else if i == 2 {
            Weekday::Wed
        } else if i == 3 {
            Weekday::Thu
        } else if i == 4 {
            Weekday::Fri
        } else if i == 5 {
            Weekday::Sat
        } else {
            Weekday::Sun
        }
    }

    pub fn num_days_from_monday(&self) -> (r: u8)
        ensures
            r as int == self.index(),
            r < 7,
    {
        match self {
            Weekday::Mon => 0,
            Weekday::Tue => 1,
            Weekday::Wed => 2,
            Weekday::Thu => 3,
            Weekday::Fri => 4,
            Weekday::Sat => 5,
            Weekday::Sun => 6,
        }
    }

    pub fn from_index(i: u8) -> (r: Weekday)
        requires
            i < 7,
        ensures
            r == Weekday::from_index_spec(i as int),
            r.index() == i as int,
    {
        if i == 0 {
            Weekday::Mon
        } else if i == 1 {
            Weekday::Tue
        } else if i == 2 {
            Weekday::Wed
        } else if i == 3 {
            Weekday::Thu
        } else if i == 4 {
            Weekday::Fri
        } else if i == 5 {
            Weekday::Sat
        } else {
            Weekday::Sun
        }
    }
}

/// An instant within a day: whole seconds since midnight and a sub-second part.
#[derive(Debug, Clone, Copy, PartialEq, Eq, Structural, Hash)]
pub struct TimeOfDay {
    secs: u32,
    nanos: u32,
}

impl View for TimeOfDay {
    /// Nanoseconds since midnight.
    type V = int;

    closed spec fn view(&self) -> int {
        self.secs as int * NANOS_PER_SEC as int + self.nanos as int
    }
}

/// Nanoseconds since midnight of the instant `h:m:s` plus `nano` nanoseconds.
pub open spec fn hms_nanos(h: int, m: int, s: int, nano: int) -> int {
    ((h * 60 + m) * 60 + s) * NANOS_PER_SEC as int + nano
}

/// Splitting a count of nanoseconds into whole seconds and the rest.
proof fn lemma_split(secs: int, nanos: int)
    requires
        0 <= nanos < NANOS_PER_SEC,
    ensures
        (secs * NANOS_PER_SEC as int + nanos) / NANOS_PER_SEC as int == secs,
        (secs * NANOS_PER_SEC as int + nanos) % NANOS_PER_SEC as int == nanos,
{
    lemma_fundamental_div_mod_converse(
        secs * NANOS_PER_SEC as int + nanos,
        NANOS_PER_SEC as int,
        secs,
        nanos,
    );
}

impl TimeOfDay {
    /// Midnight.
    pub fn midnight() -> (r: TimeOfDay)
        ensures
            r@ == 0,
    {
        TimeOfDay { secs: 0, nanos: 0 }
    }

    /// The instant `secs` seconds and `nano` nanoseconds after midnight, if both are in range.
    pub fn from_num_seconds_from_midnight_opt(secs: u32, nano: u32) -> (r: Option<TimeOfDay>)
        ensures
            r is Some <==> secs < SECS_PER_DAY && nano < NANOS_PER_SEC,
            r matches Some(t) ==> t@ == secs as int * NANOS_PER_SEC as int + nano as int,
    {
        if secs < SECS_PER_DAY && nano < NANOS_PER_SEC {
            Some(TimeOfDay { secs, nanos: nano })
        } else {
            None
        }
    }

    /// The instant `h:m:s.nano`, if each part is in range.
    pub fn from_hms_nano_opt(h: u32, m: u32, s: u32, nano: u32) -> (r: Option<TimeOfDay>)
        ensures
            r is Some <==> h < 24 && m < 60 && s < 60 && nano < NANOS_PER_SEC,
            r matches Some(t) ==> t@ == hms_nanos(h as int, m as int, s as int, nano as int),
    {
        if h < 24 && m < 60 && s < 60 && nano < NANOS_PER_SEC {
            let secs: u32 = (h * 60 + m) * 60 + s;
            Some(TimeOfDay { secs, nanos: nano })
        } else {
            None
        }
    }

    /// The instant `h:m:s`, if each part is in range.
    pub fn from_hms_opt(h: u32, m: u32, s: u32) -> (r: Option<TimeOfDay>)
        ensures
            r is Some <==> h < 24 && m < 60 && s < 60,
            r matches Some(t) ==> t@ == hms_nanos(h as int, m as int, s as int, 0),
    {
        TimeOfDay::from_hms_nano_opt(h, m, s, 0)
    }

    /// Whole seconds since midnight.
    pub fn num_seconds_from_midnight(&self) -> (r: u32)
        ensures
            r as int == self@ / NANOS_PER_SEC as int,
    {
        proof {
            use_type_invariant(self);
            lemma_split(self.secs as int, self.nanos as int);
        }
        self.secs
    }

    /// Nanoseconds past the last whole second.
    pub fn nanosecond(&self) -> (r: u32)
        ensures
            r as int == self@ % NANOS_PER_SEC as int,
    {
        proof {
            use_type_invariant(self);
            lemma_split(self.secs as int, self.nanos as int);
        }
        self.nanos
    }

    /// Whether `self` comes strictly before `other` within the day.
    pub fn is_before(&self, other: &TimeOfDay) -> (r: bool)
        ensures
            r == (self@ < other@),
    {
        proof {
            use_type_invariant(self);
            use_type_invariant(other);
            lemma_split(self.secs as int, self.nanos as int);
            lemma_split(other.secs as int, other.nanos as int);
        }
        self.secs < other.secs || (self.secs == other.secs && self.nanos < other.nanos)
    }

    #[verifier::type_invariant]
    spec fn in_range(self) -> bool {
        self.secs < SECS_PER_DAY && self.nanos < NANOS_PER_SEC
    }

}

/// A calendar date with a time of day, in local time, with the day of the week it falls on.
#[derive(Debug, Clone, Copy, PartialEq, Eq, Structural, Hash)]
pub struct DateTime {
    year: i32,
    month: u32,
    day: u32,
    weekday: Weekday,
    time: TimeOfDay,
}

/// The day of the week, counted from Monday, of a date given as year, month and day of
/// month; `None` where the calendar has no such date.
pub uninterp spec fn weekday_of(year: int, month: int, day: int) -> Option<int>;

/// Relies on chrono's `NaiveDate::from_ymd_opt`, which returns `None` for a date that does
/// not exist in the proleptic Gregorian calendar or lies outside chrono's range, and on
/// `Weekday::num_days_from_monday`, which counts from 0 (Monday) to 6 (Sunday).
#[verifier::external_body]
fn weekday_number(year: i32, month: u32, day: u32) -> (r: Option<u8>)
    ensures
        weekday_of(year as int, month as int, day as int) == (match r {
            Some(k) => Some(k as int),
            None => None::<int>,
        }),
        r matches Some(k) ==> k < 7,
{
    match chrono::NaiveDate::from_ymd_opt(year, month, day) {
        Some(date) => Some(chrono::Datelike::weekday(&date).num_days_from_monday() as u8),
        None => None,
    }
}

impl DateTime {
    pub closed spec fn year_spec(self) -> int {
        self.year as int
    }

    pub closed spec fn month_spec(self) -> int {
        self.month as int
    }

    pub closed spec fn day_spec(self) -> int {
        self.day as int
    }

    pub closed spec fn weekday_spec(self) -> Weekday {
        self.weekday
    }

    pub closed spec fn time_spec(self) -> TimeOfDay {
        self.time
    }

    /// The date `year`-`month`-`day` at `time`, if that date exists.
    pub fn from_ymd_opt(year: i32, month: u32, day: u32, time: TimeOfDay) -> (r: Option<DateTime>)
        ensures
            r is Some <==> weekday_of(year as int, month as int, day as int) is Some,
            r matches Some(dt) ==> {
                &&& dt.year_spec() == year as int
                &&& dt.month_spec() == month as int
                &&& dt.day_spec() == day as int
                &&& dt.time_spec() == time
                &&& dt.weekday_spec() == Weekday::from_index_spec(
                    weekday_of(year as int, month as int, day as int)->0,
                )
            },
    {
        match weekday_number(year, month, day) {
            Some(k) => Some(DateTime { year, month, day, weekday: Weekday::from_index(k), time }),
            None => None,
        }
    }

    pub fn year(&self) -> (r: i32)
        ensures
            r as int == self.year_spec(),
    {
        self.year
    }

    pub fn month(&self) -> (r: u32)
        ensures
            r as int == self.month_spec(),
    {
        self.month
    }

    pub fn day(&self) -> (r: u32)
        ensures
            r as int == self.day_spec(),
    {
        self.day
    }

    pub fn weekday(&self) -> (r: Weekday)
        ensures
            r == self.weekday_spec(),
    {
        self.weekday
    }

    pub fn time(&self) -> (r: TimeOfDay)
        ensures
            r == self.time_spec(),
    {
        self.time
    }
}

} // verus!
