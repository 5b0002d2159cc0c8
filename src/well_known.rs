//! The well-known formats: RFC 2822, RFC 3339 and configurable ISO 8601.
use vstd::prelude::*;

use crate::component::subsecond_repr;
use crate::digits::{format_number_pad_zero, pad_zero};
use crate::error::{outcome_matches, FormatError};
use crate::modifier::SubsecondDigits;
use crate::render::{COLON, COMMA, DOT, HYPHEN, LETTER_T, LETTER_Z, PLUS, SPACE, month_short_name, weekday_short_name, write_byte, write_month_short, write_weekday_short};
use crate::value::{abs8, unsigned_abs8, Date, Time, UtcOffset};

verus! {

/// The format of RFC 2822, e.g. `Thu, 14 Mar 2024 01:02:03 +0530`.
#[derive(Debug, Clone, Copy, PartialEq, Eq)]
pub struct Rfc2822;

/// The format of RFC 3339, e.g. `2024-03-14T01:02:03.12+05:30`.
#[derive(Debug, Clone, Copy, PartialEq, Eq)]
pub struct Rfc3339;

/// `-` for a negative offset, else `+`.
pub open spec fn offset_sign(o: UtcOffset) -> Seq<u8> {
    if o.spec_is_negative() {
        seq![HYPHEN]
    } else {
        seq![PLUS]
    }
}

/// The date part of RFC 2822, with the space that follows it.
pub open spec fn rfc2822_date(d: Date) -> Seq<u8> {
    weekday_short_name(d.weekday) + seq![COMMA, SPACE] + pad_zero(d.day as nat, 2) + seq![SPACE]
        + month_short_name(d.month) + seq![SPACE] + pad_zero(d.year as nat, 4) + seq![SPACE]
}

/// The time and offset part of RFC 2822.
pub open spec fn rfc2822_time(t: Time, o: UtcOffset) -> Seq<u8> {
    pad_zero(t.hour as nat, 2) + seq![COLON] + pad_zero(t.minute as nat, 2) + seq![COLON]
        + pad_zero(t.second as nat, 2) + seq![SPACE] + offset_sign(o) + pad_zero(abs8(o.hours), 2)
        + pad_zero(abs8(o.minutes), 2)
}

/// The text of RFC 2822 for values it can show.
pub open spec fn rfc2822_bytes(d: Date, t: Time, o: UtcOffset) -> Seq<u8> {
    rfc2822_date(d) + rfc2822_time(t, o)
}

/// RFC 2822 needs all three values, a year from 1900 on, and an offset in
/// whole minutes.
pub open spec fn rfc2822_output(date: Option<Date>, time: Option<Time>, offset: Option<UtcOffset>) -> Result<Seq<u8>, FormatError> {
    match (date, time, offset) {
        (Some(d), Some(t), Some(o)) => if d.year < 1900 {
            Err(FormatError::InvalidComponent("year"))
        } else if o.seconds != 0 {
            Err(FormatError::InvalidComponent("offset_second"))
        } else {
            Ok(rfc2822_bytes(d, t, o))
        },
        _ => Err(FormatError::InsufficientTypeInformation),
    }
}

/// The fraction of a second in RFC 3339: nothing for zero, else a point and
/// as many digits as the value needs.
pub open spec fn rfc3339_fraction(t: Time) -> Seq<u8> {
    if t.nanosecond == 0 {
        seq![]
    } else {
        let r = subsecond_repr(SubsecondDigits::OneOrMore, t.nanosecond as nat);
        seq![DOT] + pad_zero(r.1, r.0)
    }
}

/// The offset in RFC 3339: `Z` for UTC, else sign, hours, `:` and minutes.
pub open spec fn rfc3339_offset(o: UtcOffset) -> Seq<u8> {
    if o.spec_is_utc() {
        seq![LETTER_Z]
    } else {
        offset_sign(o) + pad_zero(abs8(o.hours), 2) + seq![COLON] + pad_zero(abs8(o.minutes), 2)
    }
}

/// The date and the time to the second in RFC 3339.
pub open spec fn rfc3339_date_time(d: Date, t: Time) -> Seq<u8> {
    pad_zero(d.year as nat, 4) + seq![HYPHEN] + pad_zero(d.month.spec_number(), 2) + seq![HYPHEN]
        + pad_zero(d.day as nat, 2) + seq![LETTER_T] + pad_zero(t.hour as nat, 2) + seq![COLON]
        + pad_zero(t.minute as nat, 2) + seq![COLON] + pad_zero(t.second as nat, 2)
}

/// The text of RFC 3339 for values it can show.
pub open spec fn rfc3339_bytes(d: Date, t: Time, o: UtcOffset) -> Seq<u8> {
    rfc3339_date_time(d, t) + rfc3339_fraction(t) + rfc3339_offset(o)
}

/// RFC 3339 needs all three values, a year from 0 to 9999, and an offset in
/// whole minutes.
pub open spec fn rfc3339_output(date: Option<Date>, time: Option<Time>, offset: Option<UtcOffset>) -> Result<Seq<u8>, FormatError> {
    match (date, time, offset) {
        (Some(d), Some(t), Some(o)) => if d.year < 0 || d.year >= 10_000 {
            Err(FormatError::InvalidComponent("year"))
        } else if o.seconds != 0 {
            Err(FormatError::InvalidComponent("offset_second"))
        } else {
            Ok(rfc3339_bytes(d, t, o))
        },
        _ => Err(FormatError::InsufficientTypeInformation),
    }
}

fn write_offset_sign(out: &mut Vec<u8>, o: UtcOffset)
    ensures
        final(out)@ == old(out)@ + offset_sign(o),
{
    if o.is_negative() {
        out.push(HYPHEN);
    } else {
        out.push(PLUS);
    }
}

fn write_rfc2822_date(out: &mut Vec<u8>, d: Date)
    requires
        d.year >= 1900,
    ensures
        final(out)@ == old(out)@ + rfc2822_date(d),
{
    write_weekday_short(out, d.weekday);
    write_byte(out, COMMA);
    write_byte(out, SPACE);
    format_number_pad_zero(out, d.day as u128, 2);
    write_byte(out, SPACE);
    write_month_short(out, d.month);
    write_byte(out, SPACE);
    format_number_pad_zero(out, d.year as u128, 4);
    write_byte(out, SPACE);
    assert(out@ =~= old(out)@ + rfc2822_date(d));
}

fn write_rfc2822_time(out: &mut Vec<u8>, t: Time, o: UtcOffset)
    ensures
        final(out)@ == old(out)@ + rfc2822_time(t, o),
{
    format_number_pad_zero(out, t.hour as u128, 2);
    write_byte(out, COLON);
    format_number_pad_zero(out, t.minute as u128, 2);
    write_byte(out, COLON);
    format_number_pad_zero(out, t.second as u128, 2);
    write_byte(out, SPACE);
    write_offset_sign(out, o);
    format_number_pad_zero(out, unsigned_abs8(o.hours) as u128, 2);
    format_number_pad_zero(out, unsigned_abs8(o.minutes) as u128, 2);
    assert(out@ =~= old(out)@ + rfc2822_time(t, o));
}

impl Rfc2822 {
    /// Writes the values in the format of RFC 2822; on success returns the
    /// number of bytes appended.
    pub fn format_into(
        &self,
        out: &mut Vec<u8>,
        date: Option<Date>,
        time: Option<Time>,
        offset: Option<UtcOffset>,
    ) -> (r: Result<usize, FormatError>)
        ensures
            outcome_matches(rfc2822_output(date, time, offset), old(out)@, final(out)@, r),
    {
        let (d, t, o) = match (date, time, offset) {
            (Some(d), Some(t), Some(o)) => (d, t, o),
            _ => return Err(FormatError::InsufficientTypeInformation),
        };
        if d.year < 1900 {
            return Err(FormatError::InvalidComponent("year"));
        }
        if o.seconds != 0 {
            return Err(FormatError::InvalidComponent("offset_second"));
        }
        let start = out.len();
        write_rfc2822_date(out, d);
        write_rfc2822_time(out, t, o);
        assert(out@ =~= old(out)@ + rfc2822_bytes(d, t, o));
        Ok(out.len() - start)
    }
}

fn write_rfc3339_date_time(out: &mut Vec<u8>, d: Date, t: Time)
    requires
        0 <= d.year < 10_000,
    ensures
        final(out)@ == old(out)@ + rfc3339_date_time(d, t),
{
    format_number_pad_zero(out, d.year as u128, 4);
    write_byte(out, HYPHEN);
    format_number_pad_zero(out, d.month.number() as u128, 2);
    write_byte(out, HYPHEN);
    format_number_pad_zero(out, d.day as u128, 2);
    write_byte(out, LETTER_T);
    format_number_pad_zero(out, t.hour as u128, 2);
    write_byte(out, COLON);
    format_number_pad_zero(out, t.minute as u128, 2);
    write_byte(out, COLON);
    format_number_pad_zero(out, t.second as u128, 2);
    assert(out@ =~= old(out)@ + rfc3339_date_time(d, t));
}

fn write_rfc3339_fraction(out: &mut Vec<u8>, t: Time)
    ensures
        final(out)@ == old(out)@ + rfc3339_fraction(t),
{
    if t.nanosecond != 0 {
        let (width, value) = SubsecondDigits::OneOrMore.as_format_repr(t.nanosecond);
        write_byte(out, DOT);
        format_number_pad_zero(out, value as u128, width);
    }
    assert(out@ =~= old(out)@ + rfc3339_fraction(t));
}

fn write_rfc3339_offset(out: &mut Vec<u8>, o: UtcOffset)
    ensures
        final(out)@ == old(out)@ + rfc3339_offset(o),
{
    if o.is_utc() {
        write_byte(out, LETTER_Z);
    } else {
        write_offset_sign(out, o);
        format_number_pad_zero(out, unsigned_abs8(o.hours) as u128, 2);
        write_byte(out, COLON);
        format_number_pad_zero(out, unsigned_abs8(o.minutes) as u128, 2);
    }
    assert(out@ =~= old(out)@ + rfc3339_offset(o));
}

impl Rfc3339 {
    /// Writes the values in the format of RFC 3339; on success returns the
    /// number of bytes appended.
    pub fn format_into(
        &self,
        out: &mut Vec<u8>,
        date: Option<Date>,
        time: Option<Time>,
        offset: Option<UtcOffset>,
    ) -> (r: Result<usize, FormatError>)
        ensures
            outcome_matches(rfc3339_output(date, time, offset), old(out)@, final(out)@, r),
    {
        let (d, t, o) = match (date, time, offset) {
            (Some(d), Some(t), Some(o)) => (d, t, o),
            _ => return Err(FormatError::InsufficientTypeInformation),
        };
        if d.year < 0 || d.year >= 10_000 {
            return Err(FormatError::InvalidComponent("year"));
        }
        if o.seconds != 0 {
            return Err(FormatError::InvalidComponent("offset_second"));
        }
        let start = out.len();
        write_rfc3339_date_time(out, d, t);
        write_rfc3339_fraction(out, t);
        write_rfc3339_offset(out, o);
        assert(out@ =~= old(out)@ + rfc3339_bytes(d, t, o));
        Ok(out.len() - start)
    }
}

/// RFC 2822 cannot show a year before 1900: whatever the time and offset,
/// formatting fails and names the year.
pub proof fn lemma_rfc2822_early_year(d: Date, t: Time, o: UtcOffset)
    requires
        d.year < 1900,
    ensures
        rfc2822_output(Some(d), Some(t), Some(o)) == Err::<Seq<u8>, FormatError>(
            FormatError::InvalidComponent("year"),
        ),
{
}

/// Neither RFC 2822 nor RFC 3339 can show an offset with seconds: for a year
/// that the format can show, formatting fails and names the offset's seconds.
pub proof fn lemma_offset_seconds_rejected(d: Date, t: Time, o: UtcOffset)
    requires
        o.seconds != 0,
    ensures
        d.year >= 1900 ==> rfc2822_output(Some(d), Some(t), Some(o)) == Err::<Seq<u8>, FormatError>(
            FormatError::InvalidComponent("offset_second"),
        ),
        0 <= d.year < 10_000 ==> rfc3339_output(Some(d), Some(t), Some(o)) == Err::<
            Seq<u8>,
            FormatError,
        >(FormatError::InvalidComponent("offset_second")),
{
}

} // verus!
