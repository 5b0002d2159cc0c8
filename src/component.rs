//! The placeholders of a format description, and when each may be left out.
use vstd::prelude::*;

use crate::modifier;
use crate::modifier::SubsecondDigits;
use crate::value::{Date, Time, UtcOffset};

verus! {

/// A component of a larger format description.
#[derive(Debug, Clone, Copy, PartialEq, Eq)]
pub enum Component {
    /// Day of the month.
    Day(modifier::Day),
    /// Month of the year.
    Month(modifier::Month),
    /// Ordinal day of the year.
    Ordinal(modifier::Ordinal),
    /// Day of the week.
    Weekday(modifier::Weekday),
    /// Week within the year.
    WeekNumber(modifier::WeekNumber),
    /// Year of the date.
    Year(modifier::Year),
    /// Hour of the day.
    Hour(modifier::Hour),
    /// Minute within the hour.
    Minute(modifier::Minute),
    /// AM/PM part of the time.
    Period(modifier::Period),
    /// Second within the minute.
    Second(modifier::Second),
    /// Subsecond within the second.
    Subsecond(modifier::Subsecond),
    /// Hour of the UTC offset.
    OffsetHour(modifier::OffsetHour),
    /// Minute within the hour of the UTC offset.
    OffsetMinute(modifier::OffsetMinute),
    /// Second within the minute of the UTC offset.
    OffsetSecond(modifier::OffsetSecond),
    /// A number of bytes to ignore when parsing. This has no effect on formatting.
    Ignore(modifier::Ignore),
    /// A Unix timestamp.
    UnixTimestamp(modifier::UnixTimestamp),
}

/// Strips trailing zeros from `v`, an amount of `w` digits, keeping at least one.
pub open spec fn trim_trailing_zeros(v: nat, w: nat) -> (nat, nat)
    decreases w,
{
    if w > 1 && v % 10 == 0 {
        trim_trailing_zeros(v / 10, (w - 1) as nat)
    } else {
        (w, v)
    }
}

/// The digit count and the value shown for `nanos` under a digit policy.
pub open spec fn subsecond_repr(digits: SubsecondDigits, nanos: nat) -> (nat, nat) {
    match digits {
        SubsecondDigits::One => (1, nanos / 100_000_000),
        SubsecondDigits::Two => (2, nanos / 10_000_000),
        SubsecondDigits::Three => (3, nanos / 1_000_000),
        SubsecondDigits::Four => (4, nanos / 100_000),
        SubsecondDigits::Five => (5, nanos / 10_000),
        SubsecondDigits::Six => (6, nanos / 1_000),
        SubsecondDigits::Seven => (7, nanos / 100),
        SubsecondDigits::Eight => (8, nanos / 10),
        SubsecondDigits::Nine => (9, nanos),
        SubsecondDigits::OneOrMore => trim_trailing_zeros(nanos, 9),
    }
}

fn trim_zeros(v: u32, w: usize) -> (r: (usize, u32))
    requires
        w <= 9,
    ensures
        (r.0 as nat, r.1 as nat) == trim_trailing_zeros(v as nat, w as nat),
        r.0 <= w,
        w >= 1 ==> r.0 >= 1,
    decreases w,
{
    if w > 1 && v % 10 == 0 {
        trim_zeros(v / 10, w - 1)
    } else {
        (w, v)
    }
}

impl SubsecondDigits {
    /// The digit count and the value shown for `nanos`.
    pub fn as_format_repr(self, nanos: u32) -> (r: (usize, u32))
        ensures
            (r.0 as nat, r.1 as nat) == subsecond_repr(self, nanos as nat),
            1 <= r.0 <= 9,
    {
        match self {
            SubsecondDigits::One => (1, nanos / 100_000_000),
            SubsecondDigits::Two => (2, nanos / 10_000_000),
            SubsecondDigits::Three => (3, nanos / 1_000_000),
            SubsecondDigits::Four => (4, nanos / 100_000),
            SubsecondDigits::Five => (5, nanos / 10_000),
            SubsecondDigits::Six => (6, nanos / 1_000),
            SubsecondDigits::Seven => (7, nanos / 100),
            SubsecondDigits::Eight => (8, nanos / 10),
            SubsecondDigits::Nine => (9, nanos),
            SubsecondDigits::OneOrMore => trim_zeros(nanos, 9),
        }
    }
}

impl Component {
    /// Whether this component carries nothing but a default value under the
    /// given values, so that an enclosing optional item may leave it out.
    pub open spec fn spec_ignorable(self, time: Option<Time>, offset: Option<UtcOffset>) -> bool {
        match self {
            Component::Second(_) => match time {
                Some(t) => t.second == 0,
                None => true,
            },
            Component::Subsecond(s) => match time {
                Some(t) => subsecond_repr(s.digits, t.nanosecond as nat).1 == 0,
                None => true,
            },
            Component::OffsetHour(_) => match offset {
                Some(o) => o.spec_is_utc(),
                None => true,
            },
            Component::OffsetMinute(_) => match offset {
                Some(o) => o.minutes == 0,
                None => true,
            },
            Component::OffsetSecond(_) => match offset {
                Some(o) => o.seconds == 0,
                None => true,
            },
            _ => false,
        }
    }

    /// Determines whether this component can be ignored when formatting.
    pub fn fmt_ignore(
        &self,
        date: Option<Date>,
        time: Option<Time>,
        offset: Option<UtcOffset>,
    ) -> (r: bool)
        ensures
            r == self.spec_ignorable(time, offset),
    {
        match self {
            Component::Day(_)
            | Component::Month(_)
            | Component::Ordinal(_)
            | Component::Weekday(_)
            | Component::WeekNumber(_)
            | Component::Year(_)
            | Component::Hour(_)
            | Component::Minute(_)
            | Component::Period(_)
            | Component::Ignore(_)
            | Component::UnixTimestamp(_) => false,
            Component::Second(_) => match time {
                Some(t) => t.second == 0,
                None => true,
            },
            Component::Subsecond(s) => match time {
                Some(t) => s.digits.as_format_repr(t.nanosecond).1 == 0,
                None => true,
            },
            Component::OffsetHour(_) => match offset {
                Some(o) => o.is_utc(),
                None => true,
            },
            Component::OffsetMinute(_) => match offset {
                Some(o) => o.minutes == 0,
                None => true,
            },
            Component::OffsetSecond(_) => match offset {
                Some(o) => o.seconds == 0,
                None => true,
            },
        }
    }
}

} // verus!
