//! Per-component formatting parameters.
use vstd::prelude::*;

verus! {

/// How a number is filled out to its usual width.
#[derive(Debug, Clone, Copy, PartialEq, Eq)]
pub enum Padding {
    /// Leading spaces.
    Space,
    /// Leading zeros.
    Zero,
    /// No padding.
    Unpadded,
}

#[derive(Debug, Clone, Copy, PartialEq, Eq)]
pub struct Day {
    pub padding: Padding,
}

#[derive(Debug, Clone, Copy, PartialEq, Eq)]
pub enum MonthRepr {
    /// The month's number, January being 1.
    Numerical,
    /// The full English name.
    Long,
    /// The first three letters of the English name.
    Short,
}

#[derive(Debug, Clone, Copy, PartialEq, Eq)]
pub struct Month {
    pub padding: Padding,
    pub repr: MonthRepr,
}

#[derive(Debug, Clone, Copy, PartialEq, Eq)]
pub struct Ordinal {
    pub padding: Padding,
}

#[derive(Debug, Clone, Copy, PartialEq, Eq)]
pub enum WeekdayRepr {
    /// The first three letters of the English name.
    Short,
    /// The full English name.
    Long,
    /// A number counted from Sunday.
    Sunday,
    /// A number counted from Monday.
    Monday,
}

#[derive(Debug, Clone, Copy, PartialEq, Eq)]
pub struct Weekday {
    pub repr: WeekdayRepr,
    /// For the numeric forms: count from 1 rather than 0.
    pub one_indexed: bool,
}

#[derive(Debug, Clone, Copy, PartialEq, Eq)]
pub enum WeekNumberRepr {
    /// The ISO 8601 week.
    Iso,
    /// Weeks starting on Sunday.
    Sunday,
    /// Weeks starting on Monday.
    Monday,
}

#[derive(Debug, Clone, Copy, PartialEq, Eq)]
pub struct WeekNumber {
    pub padding: Padding,
    pub repr: WeekNumberRepr,
}

#[derive(Debug, Clone, Copy, PartialEq, Eq)]
pub enum YearRepr {
    /// The whole year, at least four digits.
    Full,
    /// The last two digits of the year.
    LastTwo,
}

#[derive(Debug, Clone, Copy, PartialEq, Eq)]
pub struct Year {
    pub padding: Padding,
    pub repr: YearRepr,
    /// Use the year that the ISO week belongs to.
    pub iso_week_based: bool,
    /// Show `+` before a year that is not negative.
    pub sign_is_mandatory: bool,
}

#[derive(Debug, Clone, Copy, PartialEq, Eq)]
pub struct Hour {
    pub padding: Padding,
    pub is_12_hour_clock: bool,
}

#[derive(Debug, Clone, Copy, PartialEq, Eq)]
pub struct Minute {
    pub padding: Padding,
}

#[derive(Debug, Clone, Copy, PartialEq, Eq)]
pub struct Period {
    /// `AM`/`PM` rather than `am`/`pm`.
    pub is_uppercase: bool,
}

#[derive(Debug, Clone, Copy, PartialEq, Eq)]
pub struct Second {
    pub padding: Padding,
}

/// How many digits of the fraction of a second are shown.
#[derive(Debug, Clone, Copy, PartialEq, Eq)]
pub enum SubsecondDigits {
    One,
    Two,
    Three,
    Four,
    Five,
    Six,
    Seven,
    Eight,
    Nine,
    /// As many as needed to show the value exactly, at least one.
    OneOrMore,
}

#[derive(Debug, Clone, Copy, PartialEq, Eq)]
pub struct Subsecond {
    pub digits: SubsecondDigits,
}

#[derive(Debug, Clone, Copy, PartialEq, Eq)]
pub struct OffsetHour {
    /// Show `+` before an offset that is not negative.
    pub sign_is_mandatory: bool,
    pub padding: Padding,
}

#[derive(Debug, Clone, Copy, PartialEq, Eq)]
pub struct OffsetMinute {
    pub padding: Padding,
}

#[derive(Debug, Clone, Copy, PartialEq, Eq)]
pub struct OffsetSecond {
    pub padding: Padding,
}

/// A number of bytes that parsing skips; formatting writes nothing for it.
#[derive(Debug, Clone, Copy, PartialEq, Eq)]
pub struct Ignore {
    pub count: u16,
}

#[derive(Debug, Clone, Copy, PartialEq, Eq)]
pub enum UnixTimestampPrecision {
    Second,
    Millisecond,
    Microsecond,
    Nanosecond,
}

#[derive(Debug, Clone, Copy, PartialEq, Eq)]
pub struct UnixTimestamp {
    pub precision: UnixTimestampPrecision,
    /// Show `+` before a timestamp that is not negative.
    pub sign_is_mandatory: bool,
}

} // verus!
