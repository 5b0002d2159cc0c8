//! The values a format renders: a calendar date, a time of day and a UTC
//! offset. Each holds the fields that rendering reads, as plain integers.
use vstd::prelude::*;

verus! {

/// A month of the year.
#[derive(Debug, Clone, Copy, PartialEq, Eq)]
pub enum Month {
    January,
    February,
    March,
    April,
    May,
    June,
    July,
    August,
    September,
    October,
    November,
    December,
}

impl Month {
    /// The month's number, January being 1.
    pub open spec fn spec_number(self) -> nat {
        match self {
            Month::January => 1,
            Month::February => 2,
            Month::March => 3,
            Month::April => 4,
            Month::May => 5,
            Month::June => 6,
            Month::July => 7,
            Month::August => 8,
            Month::September => 9,
            Month::October => 10,
            Month::November => 11,
            Month::December => 12,
        }
    }

    /// The month's number, January being 1.
    pub fn number(self) -> (r: u8)
        ensures
            r as nat == self.spec_number(),
    {
        match self {
            Month::January => 1,
            Month::February => 2,
            Month::March => 3,
            Month::April => 4,
            Month::May => 5,
            Month::June => 6,
            Month::July => 7,
            Month::August => 8,
            Month::September => 9,
            Month::October => 10,
            Month::November => 11,
            Month::December => 12,
        }
    }
}

/// A day of the week.
#[derive(Debug, Clone, Copy, PartialEq, Eq)]
pub enum Weekday {
    Monday,
    Tuesday,
    Wednesday,
    Thursday,
    Friday,
    Saturday,
    Sunday,
}

impl Weekday {
    /// Days since the preceding Monday (Monday is 0).
    pub open spec fn spec_from_monday(self) -> nat {
        match self {
            Weekday::Monday => 0,
            Weekday::Tuesday => 1,
            Weekday::Wednesday => 2,
            Weekday::Thursday => 3,
            Weekday::Friday => 4,
            Weekday::Saturday => 5,
            Weekday::Sunday => 6,
        }
    }

    /// Days since the preceding Sunday (Sunday is 0).
    pub open spec fn spec_from_sunday(self) -> nat {
        (self.spec_from_monday() + 1) % 7
    }

    /// Days since the preceding Monday (Monday is 0).
    pub fn number_days_from_monday(self) -> (r: u8)
        ensures
            r as nat == self.spec_from_monday(),
    {
        match self {
            Weekday::Monday => 0,
            Weekday::Tuesday => 1,
            Weekday::Wednesday => 2,
            Weekday::Thursday => 3,
            Weekday::Friday => 4,
            Weekday::Saturday => 5,
            Weekday::Sunday => 6,
        }
    }

    /// Days since the preceding Sunday (Sunday is 0).
    pub fn number_days_from_sunday(self) -> (r: u8)
        ensures
            r as nat == self.spec_from_sunday(),
    {
        let m = self.number_days_from_monday();
        (m + 1) % 7
    }
}

/// A calendar date, with the derived fields that formats may show. The
/// fields are taken as given: rendering does not check that they agree.
#[derive(Debug, Clone, Copy, PartialEq, Eq)]
pub struct Date {
    /// Year of the proleptic Gregorian calendar (may be zero or negative).
    pub year: i32,
    pub month: Month,
    /// Day of the month, from 1.
    pub day: u8,
    /// Day of the year, from 1.
    pub ordinal: u16,
    pub weekday: Weekday,
    /// Year that the ISO week belongs to.
    pub iso_year: i32,
    /// ISO 8601 week number, from 1.
    pub iso_week: u8,
    /// Week number where weeks start on Sunday, from 0.
    pub sunday_week: u8,
    /// Week number where weeks start on Monday, from 0.
    pub monday_week: u8,
    /// Julian day number of the date.
    pub julian_day: i32,
}

/// A time of day with nanosecond precision.
#[derive(Debug, Clone, Copy, PartialEq, Eq)]
pub struct Time {
    pub hour: u8,
    pub minute: u8,
    pub second: u8,
    pub nanosecond: u32,
}

/// An offset from UTC. The three fields carry the same sign.
#[derive(Debug, Clone, Copy, PartialEq, Eq)]
pub struct UtcOffset {
    pub hours: i8,
    pub minutes: i8,
    pub seconds: i8,
}

impl UtcOffset {
    /// The offset is west of UTC.
    pub open spec fn spec_is_negative(self) -> bool {
        self.hours < 0 || self.minutes < 0 || self.seconds < 0
    }

    /// The offset is exactly zero.
    pub open spec fn spec_is_utc(self) -> bool {
        self.hours == 0 && self.minutes == 0 && self.seconds == 0
    }

    /// The offset in seconds, signed.
    pub open spec fn spec_whole_seconds(self) -> int {
        self.hours * 3600 + self.minutes * 60 + self.seconds
    }

    pub fn is_negative(&self) -> (r: bool)
        ensures
            r == self.spec_is_negative(),
    {
        self.hours < 0 || self.minutes < 0 || self.seconds < 0
    }

    pub fn is_utc(&self) -> (r: bool)
        ensures
            r == self.spec_is_utc(),
    {
        self.hours == 0 && self.minutes == 0 && self.seconds == 0
    }
}

/// Absolute value of a signed byte.
pub open spec fn abs8(v: i8) -> nat {
    if v < 0 {
        (-v) as nat
    } else {
        v as nat
    }
}

/// Absolute value of a signed byte, as an unsigned byte.
pub fn unsigned_abs8(v: i8) -> (r: u8)
    ensures
        r as nat == abs8(v),
{
    if v < 0 {
        (-(v as i16)) as u8
    } else {
        v as u8
    }
}

} // verus!
