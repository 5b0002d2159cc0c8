//! The bytes that each kind of component renders to.
use vstd::prelude::*;
use vstd::string::StringSliceAdditionalSpecFns;

use crate::component::{subsecond_repr, Component};
use crate::digits::{
    decimal, format_number, format_number_pad_space, format_number_pad_zero, pad_space, pad_zero,
};
use crate::error::{outcome_matches, FormatError};
use crate::modifier;
use crate::modifier::{
    MonthRepr, Padding, UnixTimestampPrecision, WeekNumberRepr, WeekdayRepr, YearRepr,
};
use crate::value::{abs8, unsigned_abs8, Date, Month, Time, UtcOffset, Weekday};

verus! {

pub const SPACE: u8 = 32;
pub const PLUS: u8 = 43;
pub const COMMA: u8 = 44;
pub const HYPHEN: u8 = 45;
pub const DOT: u8 = 46;
pub const COLON: u8 = 58;
pub const LETTER_T: u8 = 84;
pub const LETTER_W: u8 = 87;
pub const LETTER_Z: u8 = 90;

/// `v` in decimal, padded to `w` places as the padding asks.
pub open spec fn padded(v: nat, w: nat, padding: Padding) -> Seq<u8> {
    match padding {
        Padding::Zero => pad_zero(v, w),
        Padding::Space => pad_space(v, w),
        Padding::Unpadded => decimal(v),
    }
}

/// A leading sign: `-` when negative, `+` when asked for, else nothing.
pub open spec fn sign_bytes(negative: bool, mandatory: bool) -> Seq<u8> {
    if negative {
        seq![HYPHEN]
    } else if mandatory {
        seq![PLUS]
    } else {
        seq![]
    }
}

pub open spec fn month_long_name(m: Month) -> Seq<u8> {
    match m {
        Month::January => "January".spec_bytes(),
        Month::February => "February".spec_bytes(),
        Month::March => "March".spec_bytes(),
        Month::April => "April".spec_bytes(),
        Month::May => "May".spec_bytes(),
        Month::June => "June".spec_bytes(),
        Month::July => "July".spec_bytes(),
        Month::August => "August".spec_bytes(),
        Month::September => "September".spec_bytes(),
        Month::October => "October".spec_bytes(),
        Month::November => "November".spec_bytes(),
        Month::December => "December".spec_bytes(),
    }
}

pub open spec fn month_short_name(m: Month) -> Seq<u8> {
    match m {
        Month::January => "Jan".spec_bytes(),
        Month::February => "Feb".spec_bytes(),
        Month::March => "Mar".spec_bytes(),
        Month::April => "Apr".spec_bytes(),
        Month::May => "May".spec_bytes(),
        Month::June => "Jun".spec_bytes(),
        Month::July => "Jul".spec_bytes(),
        Month::August => "Aug".spec_bytes(),
        Month::September => "Sep".spec_bytes(),
        Month::October => "Oct".spec_bytes(),
        Month::November => "Nov".spec_bytes(),
        Month::December => "Dec".spec_bytes(),
    }
}

pub open spec fn weekday_long_name(w: Weekday) -> Seq<u8> {
    match w {
        Weekday::Monday => "Monday".spec_bytes(),
        Weekday::Tuesday => "Tuesday".spec_bytes(),
        Weekday::Wednesday => "Wednesday".spec_bytes(),
        Weekday::Thursday => "Thursday".spec_bytes(),
        Weekday::Friday => "Friday".spec_bytes(),
        Weekday::Saturday => "Saturday".spec_bytes(),
        Weekday::Sunday => "Sunday".spec_bytes(),
    }
}

pub open spec fn weekday_short_name(w: Weekday) -> Seq<u8> {
    match w {
        Weekday::Monday => "Mon".spec_bytes(),
        Weekday::Tuesday => "Tue".spec_bytes(),
        Weekday::Wednesday => "Wed".spec_bytes(),
        Weekday::Thursday => "Thu".spec_bytes(),
        Weekday::Friday => "Fri".spec_bytes(),
        Weekday::Saturday => "Sat".spec_bytes(),
        Weekday::Sunday => "Sun".spec_bytes(),
    }
}

/// Appends the bytes of `s`.
pub fn write_str(out: &mut Vec<u8>, s: &str) -> (r: usize)
    ensures
        final(out)@ == old(out)@ + s.spec_bytes(),
        r as nat == s.spec_bytes().len(),
{
    write_slice(out, s.as_bytes())
}

/// Appends the bytes of `b`.
pub fn write_slice(out: &mut Vec<u8>, b: &[u8]) -> (r: usize)
    ensures
        final(out)@ == old(out)@ + b@,
        r as nat == b@.len(),
{
    let ghost start = out@;
    let mut i: usize = 0;
    while i < b.len()
        invariant
            i <= b@.len(),
            out@ == start + b@.take(i as int),
        decreases b@.len() - i,
    {
        out.push(b[i]);
        i = i + 1;
        assert(out@ =~= start + b@.take(i as int));
    }
    assert(b@.take(i as int) =~= b@);
    i
}

/// Appends a single byte.
pub fn write_byte(out: &mut Vec<u8>, b: u8) -> (r: usize)
    ensures
        final(out)@ == old(out)@.push(b),
        r == 1,
{
    out.push(b);
    1
}

/// Appends `value` padded to `width` places as `padding` asks.
pub fn format_number_padded(out: &mut Vec<u8>, value: u128, width: usize, padding: Padding) -> (r:
    usize)
    requires
        1 <= width <= 9,
    ensures
        final(out)@ == old(out)@ + padded(value as nat, width as nat, padding),
        r as nat == padded(value as nat, width as nat, padding).len(),
{
    match padding {
        Padding::Zero => format_number_pad_zero(out, value, width),
        Padding::Space => format_number_pad_space(out, value, width),
        Padding::Unpadded => format_number(out, value),
    }
}

fn write_sign(out: &mut Vec<u8>, negative: bool, mandatory: bool)
    ensures
        final(out)@ == old(out)@ + sign_bytes(negative, mandatory),
{
    if negative {
        out.push(HYPHEN);
    } else if mandatory {
        out.push(PLUS);
    }
    assert(out@ =~= old(out)@ + sign_bytes(negative, mandatory));
}

pub open spec fn month_bytes(m: modifier::Month, d: Date) -> Seq<u8> {
    match m.repr {
        MonthRepr::Numerical => padded(d.month.spec_number(), 2, m.padding),
        MonthRepr::Long => month_long_name(d.month),
        MonthRepr::Short => month_short_name(d.month),
    }
}

fn fmt_month(out: &mut Vec<u8>, m: modifier::Month, d: Date)
    ensures
        final(out)@ == old(out)@ + month_bytes(m, d),
{
    match m.repr {
        MonthRepr::Numerical => {
            format_number_padded(out, d.month.number() as u128, 2, m.padding);
        },
        MonthRepr::Long => {
            let s = match d.month {
                Month::January => "January",
                Month::February => "February",
                Month::March => "March",
                Month::April => "April",
                Month::May => "May",
                Month::June => "June",
                Month::July => "July",
                Month::August => "August",
                Month::September => "September",
                Month::October => "October",
                Month::November => "November",
                Month::December => "December",
            };
            write_str(out, s);
        },
        MonthRepr::Short => {
            write_month_short(out, d.month);
        },
    }
}

/// Appends the three-letter English name of a month.
pub fn write_month_short(out: &mut Vec<u8>, m: Month) -> (r: usize)
    ensures
        final(out)@ == old(out)@ + month_short_name(m),
{
    let s = match m {
        Month::January => "Jan",
        Month::February => "Feb",
        Month::March => "Mar",
        Month::April => "Apr",
        Month::May => "May",
        Month::June => "Jun",
        Month::July => "Jul",
        Month::August => "Aug",
        Month::September => "Sep",
        Month::October => "Oct",
        Month::November => "Nov",
        Month::December => "Dec",
    };
    write_str(out, s)
}

/// Appends the three-letter English name of a weekday.
pub fn write_weekday_short(out: &mut Vec<u8>, w: Weekday) -> (r: usize)
    ensures
        final(out)@ == old(out)@ + weekday_short_name(w),
{
    let s = match w {
        Weekday::Monday => "Mon",
        Weekday::Tuesday => "Tue",
        Weekday::Wednesday => "Wed",
        Weekday::Thursday => "Thu",
        Weekday::Friday => "Fri",
        Weekday::Saturday => "Sat",
        Weekday::Sunday => "Sun",
    };
    write_str(out, s)
}

pub open spec fn weekday_bytes(m: modifier::Weekday, d: Date) -> Seq<u8> {
    let one: nat = if m.one_indexed {
        1
    } else {
        0
    };
    match m.repr {
        WeekdayRepr::Short => weekday_short_name(d.weekday),
        WeekdayRepr::Long => weekday_long_name(d.weekday),
        WeekdayRepr::Sunday => decimal(d.weekday.spec_from_sunday() + one),
        WeekdayRepr::Monday => decimal(d.weekday.spec_from_monday() + one),
    }
}

fn fmt_weekday(out: &mut Vec<u8>, m: modifier::Weekday, d: Date)
    ensures
        final(out)@ == old(out)@ + weekday_bytes(m, d),
{
    let one: u128 = if m.one_indexed {
        1
    } else {
        0
    };
    match m.repr {
        WeekdayRepr::Short => {
            write_weekday_short(out, d.weekday);
        },
        WeekdayRepr::Long => {
            let s = match d.weekday {
                Weekday::Monday => "Monday",
                Weekday::Tuesday => "Tuesday",
                Weekday::Wednesday => "Wednesday",
                Weekday::Thursday => "Thursday",
                Weekday::Friday => "Friday",
                Weekday::Saturday => "Saturday",
                Weekday::Sunday => "Sunday",
            };
            write_str(out, s);
        },
        WeekdayRepr::Sunday => {
            format_number(out, d.weekday.number_days_from_sunday() as u128 + one);
        },
        WeekdayRepr::Monday => {
            format_number(out, d.weekday.number_days_from_monday() as u128 + one);
        },
    }
}

pub open spec fn week_number_bytes(m: modifier::WeekNumber, d: Date) -> Seq<u8> {
    let w = match m.repr {
        WeekNumberRepr::Iso => d.iso_week,
        WeekNumberRepr::Sunday => d.sunday_week,
        WeekNumberRepr::Monday => d.monday_week,
    };
    padded(w as nat, 2, m.padding)
}

/// Absolute value of a signed integer.
pub open spec fn abs(v: int) -> nat {
    if v < 0 {
        (-v) as nat
    } else {
        v as nat
    }
}

pub open spec fn year_bytes(m: modifier::Year, d: Date) -> Seq<u8> {
    let y = if m.iso_week_based {
        d.iso_year
    } else {
        d.year
    };
    match m.repr {
        YearRepr::Full => sign_bytes(y < 0, m.sign_is_mandatory) + padded(abs(y as int), 4, m.padding),
        YearRepr::LastTwo => padded(abs(y as int) % 100, 2, m.padding),
    }
}

fn fmt_year(out: &mut Vec<u8>, m: modifier::Year, d: Date)
    ensures
        final(out)@ == old(out)@ + year_bytes(m, d),
{
    let y = if m.iso_week_based {
        d.iso_year
    } else {
        d.year
    };
    let a: u128 = if y < 0 {
        (-(y as i64)) as u128
    } else {
        y as u128
    };
    match m.repr {
        YearRepr::Full => {
            write_sign(out, y < 0, m.sign_is_mandatory);
            format_number_padded(out, a, 4, m.padding);
            assert(out@ =~= old(out)@ + year_bytes(m, d));
        },
        YearRepr::LastTwo => {
            format_number_padded(out, a % 100, 2, m.padding);
        },
    }
}

pub open spec fn hour_bytes(m: modifier::Hour, t: Time) -> Seq<u8> {
    let h = t.hour as nat;
    let shown = if !m.is_12_hour_clock {
        h
    } else if h % 12 == 0 {
        12
    } else {
        h % 12
    };
    padded(shown, 2, m.padding)
}

pub open spec fn period_bytes(m: modifier::Period, t: Time) -> Seq<u8> {
    if t.hour < 12 {
        if m.is_uppercase {
            "AM".spec_bytes()
        } else {
            "am".spec_bytes()
        }
    } else if m.is_uppercase {
        "PM".spec_bytes()
    } else {
        "pm".spec_bytes()
    }
}

pub open spec fn subsecond_bytes(m: modifier::Subsecond, t: Time) -> Seq<u8> {
    let r = subsecond_repr(m.digits, t.nanosecond as nat);
    pad_zero(r.1, r.0)
}

/// Seconds from 1970-01-01T00:00:00Z to the moment given.
pub open spec fn unix_seconds(d: Date, t: Time, o: UtcOffset) -> int {
    (d.julian_day - 2_440_588) * 86_400 + t.hour * 3600 + t.minute * 60 + t.second
        - o.spec_whole_seconds()
}

/// Nanoseconds per unit of a timestamp precision.
pub open spec fn precision_divisor(p: UnixTimestampPrecision) -> nat {
    match p {
        UnixTimestampPrecision::Second => 1_000_000_000,
        UnixTimestampPrecision::Millisecond => 1_000_000,
        UnixTimestampPrecision::Microsecond => 1_000,
        UnixTimestampPrecision::Nanosecond => 1,
    }
}

/// A Unix timestamp in the unit of the modifier, rounded toward zero.
pub open spec fn unix_timestamp_bytes(m: modifier::UnixTimestamp, d: Date, t: Time, o: UtcOffset) -> Seq<u8> {
    let nanos = unix_seconds(d, t, o) * 1_000_000_000 + t.nanosecond;
    let shown = abs(nanos) / precision_divisor(m.precision);
    sign_bytes(nanos < 0 && shown > 0, m.sign_is_mandatory) + decimal(shown)
}

fn fmt_unix_timestamp(out: &mut Vec<u8>, m: modifier::UnixTimestamp, d: Date, t: Time, o: UtcOffset)
    ensures
        final(out)@ == old(out)@ + unix_timestamp_bytes(m, d, t, o),
{
    let days: i128 = d.julian_day as i128 - 2_440_588;
    let secs: i128 = days * 86_400 + t.hour as i128 * 3600 + t.minute as i128 * 60
        + t.second as i128 - (o.hours as i128 * 3600 + o.minutes as i128 * 60 + o.seconds as i128);
    let nanos: i128 = secs * 1_000_000_000 + t.nanosecond as i128;
    let a: u128 = if nanos < 0 {
        (-nanos) as u128
    } else {
        nanos as u128
    };
    let div: u128 = match m.precision {
        UnixTimestampPrecision::Second => 1_000_000_000,
        UnixTimestampPrecision::Millisecond => 1_000_000,
        UnixTimestampPrecision::Microsecond => 1_000,
        UnixTimestampPrecision::Nanosecond => 1,
    };
    let shown = a / div;
    write_sign(out, nanos < 0 && shown > 0, m.sign_is_mandatory);
    format_number(out, shown);
    assert(out@ =~= old(out)@ + unix_timestamp_bytes(m, d, t, o));
}

/// The component reads the date alone.
pub open spec fn reads_date(c: Component) -> bool {
    matches!(c, Component::Day(_) | Component::Month(_) | Component::Ordinal(_) | Component::Weekday(_) | Component::WeekNumber(_) | Component::Year(_))
}

/// The component reads the time of day alone.
pub open spec fn reads_time(c: Component) -> bool {
    matches!(c, Component::Hour(_) | Component::Minute(_) | Component::Period(_) | Component::Second(_) | Component::Subsecond(_))
}

/// The component reads the offset alone.
pub open spec fn reads_offset(c: Component) -> bool {
    matches!(c, Component::OffsetHour(_) | Component::OffsetMinute(_) | Component::OffsetSecond(_))
}

/// What a date component renders to.
pub open spec fn date_component_bytes(c: Component, d: Date) -> Seq<u8> {
    match c {
        Component::Day(m) => padded(d.day as nat, 2, m.padding),
        Component::Month(m) => month_bytes(m, d),
        Component::Ordinal(m) => padded(d.ordinal as nat, 3, m.padding),
        Component::Weekday(m) => weekday_bytes(m, d),
        Component::WeekNumber(m) => week_number_bytes(m, d),
        Component::Year(m) => year_bytes(m, d),
        _ => seq![],
    }
}

/// What a time component renders to.
pub open spec fn time_component_bytes(c: Component, t: Time) -> Seq<u8> {
    match c {
        Component::Hour(m) => hour_bytes(m, t),
        Component::Minute(m) => padded(t.minute as nat, 2, m.padding),
        Component::Period(m) => period_bytes(m, t),
        Component::Second(m) => padded(t.second as nat, 2, m.padding),
        Component::Subsecond(m) => subsecond_bytes(m, t),
        _ => seq![],
    }
}

/// What an offset component renders to.
pub open spec fn offset_component_bytes(c: Component, o: UtcOffset) -> Seq<u8> {
    match c {
        Component::OffsetHour(m) => sign_bytes(o.spec_is_negative(), m.sign_is_mandatory) + padded(
            abs8(o.hours),
            2,
            m.padding,
        ),
        Component::OffsetMinute(m) => padded(abs8(o.minutes), 2, m.padding),
        Component::OffsetSecond(m) => padded(abs8(o.seconds), 2, m.padding),
        _ => seq![],
    }
}

/// What a component renders to under the given values, or why it cannot: a
/// component fails when the value it reads was not supplied.
pub open spec fn component_output(
    c: Component,
    date: Option<Date>,
    time: Option<Time>,
    offset: Option<UtcOffset>,
) -> Result<Seq<u8>, FormatError> {
    let missing = Err(FormatError::InsufficientTypeInformation);
    if reads_date(c) {
        match date {
            Some(d) => Ok(date_component_bytes(c, d)),
            None => missing,
        }
    } else if reads_time(c) {
        match time {
            Some(t) => Ok(time_component_bytes(c, t)),
            None => missing,
        }
    } else if reads_offset(c) {
        match offset {
            Some(o) => Ok(offset_component_bytes(c, o)),
            None => missing,
        }
    } else {
        match c {
            Component::UnixTimestamp(m) => match (date, time, offset) {
                (Some(d), Some(t), Some(o)) => Ok(unix_timestamp_bytes(m, d, t, o)),
                _ => missing,
            },
            _ => Ok(seq![]),
        }
    }
}

fn fmt_date_component(out: &mut Vec<u8>, c: Component, d: Date)
    requires
        reads_date(c),
    ensures
        final(out)@ == old(out)@ + date_component_bytes(c, d),
{
    match c {
        Component::Day(m) => {
            format_number_padded(out, d.day as u128, 2, m.padding);
        },
        Component::Month(m) => fmt_month(out, m, d),
        Component::Ordinal(m) => {
            format_number_padded(out, d.ordinal as u128, 3, m.padding);
        },
        Component::Weekday(m) => fmt_weekday(out, m, d),
        Component::WeekNumber(m) => {
            let w = match m.repr {
                WeekNumberRepr::Iso => d.iso_week,
                WeekNumberRepr::Sunday => d.sunday_week,
                WeekNumberRepr::Monday => d.monday_week,
            };
            format_number_padded(out, w as u128, 2, m.padding);
        },
        Component::Year(m) => fmt_year(out, m, d),
        _ => {},
    }
}

fn fmt_time_component(out: &mut Vec<u8>, c: Component, t: Time)
    requires
        reads_time(c),
    ensures
        final(out)@ == old(out)@ + time_component_bytes(c, t),
{
    match c {
        Component::Hour(m) => {
            let shown: u8 = if !m.is_12_hour_clock {
                t.hour
            } else if t.hour % 12 == 0 {
                12
            } else {
                t.hour % 12
            };
            format_number_padded(out, shown as u128, 2, m.padding);
        },
        Component::Minute(m) => {
            format_number_padded(out, t.minute as u128, 2, m.padding);
        },
        Component::Period(m) => {
            let s = if t.hour < 12 {
                if m.is_uppercase {
                    "AM"
                } else {
                    "am"
                }
            } else if m.is_uppercase {
                "PM"
            } else {
                "pm"
            };
            write_str(out, s);
        },
        Component::Second(m) => {
            format_number_padded(out, t.second as u128, 2, m.padding);
        },
        Component::Subsecond(m) => {
            let (w, v) = m.digits.as_format_repr(t.nanosecond);
            format_number_pad_zero(out, v as u128, w);
        },
        _ => {},
    }
}

fn fmt_offset_component(out: &mut Vec<u8>, c: Component, o: UtcOffset)
    requires
        reads_offset(c),
    ensures
        final(out)@ == old(out)@ + offset_component_bytes(c, o),
{
    match c {
        Component::OffsetHour(m) => {
            write_sign(out, o.is_negative(), m.sign_is_mandatory);
            format_number_padded(out, unsigned_abs8(o.hours) as u128, 2, m.padding);
            assert(out@ =~= old(out)@ + offset_component_bytes(c, o));
        },
        Component::OffsetMinute(m) => {
            format_number_padded(out, unsigned_abs8(o.minutes) as u128, 2, m.padding);
        },
        Component::OffsetSecond(m) => {
            format_number_padded(out, unsigned_abs8(o.seconds) as u128, 2, m.padding);
        },
        _ => {},
    }
}

impl Component {
    pub fn reads_date(&self) -> (r: bool)
        ensures
            r == reads_date(*self),
    {
        matches!(self, Component::Day(_) | Component::Month(_) | Component::Ordinal(_) | Component::Weekday(_) | Component::WeekNumber(_) | Component::Year(_))
    }

    pub fn reads_time(&self) -> (r: bool)
        ensures
            r == reads_time(*self),
    {
        matches!(self, Component::Hour(_) | Component::Minute(_) | Component::Period(_) | Component::Second(_) | Component::Subsecond(_))
    }

    pub fn reads_offset(&self) -> (r: bool)
        ensures
            r == reads_offset(*self),
    {
        matches!(self, Component::OffsetHour(_) | Component::OffsetMinute(_) | Component::OffsetSecond(_))
    }
}

/// Renders one component; on success returns the number of bytes appended.
pub fn format_component(
    out: &mut Vec<u8>,
    component: Component,
    date: Option<Date>,
    time: Option<Time>,
    offset: Option<UtcOffset>,
) -> (r: Result<usize, FormatError>)
    ensures
        outcome_matches(component_output(component, date, time, offset), old(out)@, final(out)@, r),
{
    let start = out.len();
    let missing = Err(FormatError::InsufficientTypeInformation);
    if component.reads_date() {
        match date {
            Some(d) => fmt_date_component(out, component, d),
            None => return missing,
        }
    } else if component.reads_time() {
        match time {
            Some(t) => fmt_time_component(out, component, t),
            None => return missing,
        }
    } else if component.reads_offset() {
        match offset {
            Some(o) => fmt_offset_component(out, component, o),
            None => return missing,
        }
    } else {
        match component {
            Component::UnixTimestamp(m) => match (date, time, offset) {
                (Some(d), Some(t), Some(o)) => fmt_unix_timestamp(out, m, d, t, o),
                _ => return missing,
            },
            _ => {},
        }
    }
    let ghost b = component_output(component, date, time, offset)->Ok_0;
    assert(out@ =~= old(out)@ + b);
    Ok(out.len() - start)
}

} // verus!
