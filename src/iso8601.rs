//! ISO 8601 output under a configuration that picks the parts and their layout.
use vstd::prelude::*;

use vstd::arithmetic::div_mod::{lemma_div_denominator, lemma_fundamental_div_mod};
use crate::digits::{format_number_pad_zero, pad_zero, pow10};
use crate::error::{outcome_matches, FormatError};
use crate::render::{abs, write_byte, COLON, DOT, HYPHEN, LETTER_T, LETTER_W, LETTER_Z, PLUS};
use crate::value::{abs8, unsigned_abs8, Date, Time, UtcOffset};
use crate::well_known::offset_sign;

verus! {

/// Which of date, time and offset are written.
#[derive(Debug, Clone, Copy, PartialEq, Eq)]
pub enum FormattedComponents {
    /// Nothing: such a configuration is for reading text only.
    Nothing,
    Date,
    Time,
    Offset,
    DateTime,
    DateTimeOffset,
    TimeOffset,
}

/// How the date is written.
#[derive(Debug, Clone, Copy, PartialEq, Eq)]
pub enum DateKind {
    /// Year, month and day.
    Calendar,
    /// ISO week-numbering year, week and weekday.
    Week,
    /// Year and day of the year.
    Ordinal,
}

/// The smallest unit of the time, and how many decimal places follow it
/// (zero for none).
#[derive(Debug, Clone, Copy, PartialEq, Eq)]
pub enum TimePrecision {
    Hour { decimal_digits: u8 },
    Minute { decimal_digits: u8 },
    Second { decimal_digits: u8 },
}

/// The smallest unit of the offset.
#[derive(Debug, Clone, Copy, PartialEq, Eq)]
pub enum OffsetPrecision {
    Hour,
    Minute,
}

/// The choices of an ISO 8601 layout.
#[derive(Debug, Clone, Copy, PartialEq, Eq)]
pub struct Config {
    pub formatted_components: FormattedComponents,
    /// Write `-` and `:` between fields (the extended format).
    pub use_separators: bool,
    /// Write the year with a sign and six digits.
    pub year_is_six_digits: bool,
    pub date_kind: DateKind,
    pub time_precision: TimePrecision,
    pub offset_precision: OffsetPrecision,
}

/// The decimal places that follow the smallest unit of the time.
pub open spec fn decimal_digits_of(p: TimePrecision) -> u8 {
    match p {
        TimePrecision::Hour { decimal_digits } => decimal_digits,
        TimePrecision::Minute { decimal_digits } => decimal_digits,
        TimePrecision::Second { decimal_digits } => decimal_digits,
    }
}

impl Config {
    /// A configuration is valid when it asks for at most nine decimal places.
    pub open spec fn wf(self) -> bool {
        decimal_digits_of(self.time_precision) <= 9
    }

    /// Whether the configuration writes anything at all.
    pub open spec fn formats_anything(self) -> bool {
        self.formatted_components != FormattedComponents::Nothing
    }

    pub open spec fn formats_date(self) -> bool {
        matches!(self.formatted_components, FormattedComponents::Date | FormattedComponents::DateTime | FormattedComponents::DateTimeOffset)
    }

    pub open spec fn formats_time(self) -> bool {
        matches!(self.formatted_components, FormattedComponents::Time | FormattedComponents::DateTime | FormattedComponents::DateTimeOffset | FormattedComponents::TimeOffset)
    }

    pub open spec fn formats_offset(self) -> bool {
        matches!(self.formatted_components, FormattedComponents::Offset | FormattedComponents::DateTimeOffset | FormattedComponents::TimeOffset)
    }

    /// The default layout: extended calendar date, time to the nanosecond and
    /// offset to the minute.
    pub fn default_config() -> (r: Config)
        ensures
            r.wf(),
            r.formats_anything(),
    {
        Config {
            formatted_components: FormattedComponents::DateTimeOffset,
            use_separators: true,
            year_is_six_digits: false,
            date_kind: DateKind::Calendar,
            time_precision: TimePrecision::Second { decimal_digits: 9 },
            offset_precision: OffsetPrecision::Minute,
        }
    }

    fn date_flag(&self) -> (r: bool)
        ensures
            r == self.formats_date(),
    {
        matches!(self.formatted_components, FormattedComponents::Date | FormattedComponents::DateTime | FormattedComponents::DateTimeOffset)
    }

    fn time_flag(&self) -> (r: bool)
        ensures
            r == self.formats_time(),
    {
        matches!(self.formatted_components, FormattedComponents::Time | FormattedComponents::DateTime | FormattedComponents::DateTimeOffset | FormattedComponents::TimeOffset)
    }

    fn offset_flag(&self) -> (r: bool)
        ensures
            r == self.formats_offset(),
    {
        matches!(self.formatted_components, FormattedComponents::Offset | FormattedComponents::DateTimeOffset | FormattedComponents::TimeOffset)
    }
}

/// The byte `b` when separators are used, else nothing.
pub open spec fn separator(c: Config, b: u8) -> Seq<u8> {
    if c.use_separators {
        seq![b]
    } else {
        seq![]
    }
}

/// The year: signed and six digits, or four digits when it lies in 0..=9999.
pub open spec fn iso_year(c: Config, y: int) -> Result<Seq<u8>, FormatError> {
    if c.year_is_six_digits {
        Ok((if y < 0 {
            seq![HYPHEN]
        } else {
            seq![PLUS]
        }) + pad_zero(abs(y), 6))
    } else if 0 <= y <= 9999 {
        Ok(pad_zero(y as nat, 4))
    } else {
        Err(FormatError::InvalidComponent("year"))
    }
}

/// The date as the configuration lays it out.
pub open spec fn iso_date(c: Config, d: Date) -> Result<Seq<u8>, FormatError> {
    let year = match c.date_kind {
        DateKind::Week => d.iso_year,
        _ => d.year,
    };
    match iso_year(c, year as int) {
        Err(e) => Err(e),
        Ok(y) => Ok(
            match c.date_kind {
                DateKind::Calendar => y + separator(c, HYPHEN) + pad_zero(d.month.spec_number(), 2)
                    + separator(c, HYPHEN) + pad_zero(d.day as nat, 2),
                DateKind::Week => y + separator(c, HYPHEN) + seq![LETTER_W] + pad_zero(
                    d.iso_week as nat,
                    2,
                ) + separator(c, HYPHEN) + pad_zero(d.weekday.spec_from_monday() + 1, 1),
                DateKind::Ordinal => y + separator(c, HYPHEN) + pad_zero(d.ordinal as nat, 3),
            },
        ),
    }
}

/// `digits` decimal places of `part / unit`, rounded down, after a point;
/// nothing when `digits` is zero.
pub open spec fn iso_fraction(digits: nat, part: nat, unit: nat) -> Seq<u8> {
    if digits == 0 {
        seq![]
    } else {
        seq![DOT] + pad_zero(part * pow10(digits) / unit, digits)
    }
}

/// The time as the configuration lays it out. The leading `T` is left out
/// only in the basic format without a date.
pub open spec fn iso_time(c: Config, t: Time) -> Seq<u8> {
    let lead = if c.use_separators || c.formats_date() {
        seq![LETTER_T]
    } else {
        seq![]
    };
    let h = pad_zero(t.hour as nat, 2);
    let m = pad_zero(t.minute as nat, 2);
    let s = pad_zero(t.second as nat, 2);
    let ns = t.nanosecond as nat;
    lead + match c.time_precision {
        TimePrecision::Hour { decimal_digits } => h + iso_fraction(
            decimal_digits as nat,
            (t.minute as nat * 60 + t.second as nat) * 1_000_000_000 + ns,
            3_600_000_000_000,
        ),
        TimePrecision::Minute { decimal_digits } => h + separator(c, COLON) + m + iso_fraction(
            decimal_digits as nat,
            t.second as nat * 1_000_000_000 + ns,
            60_000_000_000,
        ),
        TimePrecision::Second { decimal_digits } => h + separator(c, COLON) + m + separator(
            c,
            COLON,
        ) + s + iso_fraction(decimal_digits as nat, ns, 1_000_000_000),
    }
}

/// The offset as the configuration lays it out: `Z` for UTC after a time;
/// seconds cannot be shown, nor minutes at hour precision.
pub open spec fn iso_offset(c: Config, o: UtcOffset) -> Result<Seq<u8>, FormatError> {
    if c.formats_time() && o.spec_is_utc() {
        Ok(seq![LETTER_Z])
    } else if o.seconds != 0 {
        Err(FormatError::InvalidComponent("offset_second"))
    } else {
        let h = offset_sign(o) + pad_zero(abs8(o.hours), 2);
        match c.offset_precision {
            OffsetPrecision::Hour => if o.minutes != 0 {
                Err(FormatError::InvalidComponent("offset_minute"))
            } else {
                Ok(h)
            },
            OffsetPrecision::Minute => Ok(h + separator(c, COLON) + pad_zero(abs8(o.minutes), 2)),
        }
    }
}

/// What ISO 8601 under `c` renders the values to: date, time and offset in
/// that order, each that `c` asks for; a part that is asked for and missing
/// is an error, and the first error is the result.
pub open spec fn iso_output(
    c: Config,
    date: Option<Date>,
    time: Option<Time>,
    offset: Option<UtcOffset>,
) -> Result<Seq<u8>, FormatError> {
    let missing = Err(FormatError::InsufficientTypeInformation);
    let date_part = if !c.formats_date() {
        Ok(seq![])
    } else {
        match date {
            Some(d) => iso_date(c, d),
            None => missing,
        }
    };
    let time_part = if !c.formats_time() {
        Ok(seq![])
    } else {
        match time {
            Some(t) => Ok(iso_time(c, t)),
            None => missing,
        }
    };
    let offset_part = if !c.formats_offset() {
        Ok(seq![])
    } else {
        match offset {
            Some(o) => iso_offset(c, o),
            None => missing,
        }
    };
    match date_part {
        Err(e) => Err(e),
        Ok(a) => match time_part {
            Err(e) => Err(e),
            Ok(b) => match offset_part {
                Err(e) => Err(e),
                Ok(x) => Ok(a + b + x),
            },
        },
    }
}

fn write_separator(out: &mut Vec<u8>, c: &Config, b: u8)
    ensures
        final(out)@ == old(out)@ + separator(*c, b),
{
    if c.use_separators {
        out.push(b);
    }
    assert(out@ =~= old(out)@ + separator(*c, b));
}

fn write_iso_year(out: &mut Vec<u8>, c: &Config, y: i32) -> (r: Result<(), FormatError>)
    ensures
        match iso_year(*c, y as int) {
            Ok(b) => r is Ok && final(out)@ == old(out)@ + b,
            Err(e) => r == Err::<(), FormatError>(e),
        },
{
    if c.year_is_six_digits {
        if y < 0 {
            out.push(HYPHEN);
        } else {
            out.push(PLUS);
        }
        let a: u128 = if y < 0 {
            (-(y as i64)) as u128
        } else {
            y as u128
        };
        format_number_pad_zero(out, a, 6);
        assert(out@ =~= old(out)@ + iso_year(*c, y as int)->Ok_0);
        Ok(())
    } else if 0 <= y && y <= 9999 {
        format_number_pad_zero(out, y as u128, 4);
        Ok(())
    } else {
        Err(FormatError::InvalidComponent("year"))
    }
}

fn write_iso_date(out: &mut Vec<u8>, c: &Config, d: Date) -> (r: Result<(), FormatError>)
    ensures
        match iso_date(*c, d) {
            Ok(b) => r is Ok && final(out)@ == old(out)@ + b,
            Err(e) => r == Err::<(), FormatError>(e),
        },
{
    let year = match c.date_kind {
        DateKind::Week => d.iso_year,
        _ => d.year,
    };
    match write_iso_year(out, c, year) {
        Err(e) => return Err(e),
        Ok(()) => {},
    }
    match c.date_kind {
        DateKind::Calendar => {
            write_separator(out, c, HYPHEN);
            format_number_pad_zero(out, d.month.number() as u128, 2);
            write_separator(out, c, HYPHEN);
            format_number_pad_zero(out, d.day as u128, 2);
        },
        DateKind::Week => {
            write_separator(out, c, HYPHEN);
            write_byte(out, LETTER_W);
            format_number_pad_zero(out, d.iso_week as u128, 2);
            write_separator(out, c, HYPHEN);
            format_number_pad_zero(out, d.weekday.number_days_from_monday() as u128 + 1, 1);
        },
        DateKind::Ordinal => {
            write_separator(out, c, HYPHEN);
            format_number_pad_zero(out, d.ordinal as u128, 3);
        },
    }
    assert(out@ =~= old(out)@ + iso_date(*c, d)->Ok_0);
    Ok(())
}

fn write_iso_fraction(out: &mut Vec<u8>, digits: u8, part: u128, unit: u128)
    requires
        digits <= 9,
        unit > 0,
        part < 1_000_000_000_000_000_000,
    ensures
        final(out)@ == old(out)@ + iso_fraction(digits as nat, part as nat, unit as nat),
{
    if digits > 0 {
        let mut scale: u128 = 1;
        let mut i: u8 = 0;
        while i < digits
            invariant
                i <= digits <= 9,
                scale == pow10(i as nat),
                scale <= 1_000_000_000,
            decreases digits - i,
        {
            proof {
                assert(pow10((i + 1) as nat) == 10 * pow10(i as nat));
                assert(i + 1 <= 9);
                lemma_pow10_bound((i + 1) as nat);
            }
            scale = scale * 10;
            i = i + 1;
        }
        write_byte(out, DOT);
        assert(part * scale <= 1_000_000_000_000_000_000 * 1_000_000_000) by (nonlinear_arith)
            requires
                part < 1_000_000_000_000_000_000,
                scale <= 1_000_000_000,
        ;
        format_number_pad_zero(out, part * scale / unit, digits as usize);
    }
    assert(out@ =~= old(out)@ + iso_fraction(digits as nat, part as nat, unit as nat));
}

proof fn lemma_pow10_bound(n: nat)
    requires
        n <= 9,
    ensures
        pow10(n) <= 1_000_000_000,
{
    reveal_with_fuel(pow10, 10);
}

fn write_iso_time(out: &mut Vec<u8>, c: &Config, t: Time)
    requires
        c.wf(),
    ensures
        final(out)@ == old(out)@ + iso_time(*c, t),
{
    if c.use_separators || c.date_flag() {
        out.push(LETTER_T);
    }
    let ns = t.nanosecond as u128;
    format_number_pad_zero(out, t.hour as u128, 2);
    match c.time_precision {
        TimePrecision::Hour { decimal_digits } => {
            write_iso_fraction(
                out,
                decimal_digits,
                (t.minute as u128 * 60 + t.second as u128) * 1_000_000_000 + ns,
                3_600_000_000_000,
            );
        },
        TimePrecision::Minute { decimal_digits } => {
            write_separator(out, c, COLON);
            format_number_pad_zero(out, t.minute as u128, 2);
            write_iso_fraction(
                out,
                decimal_digits,
                t.second as u128 * 1_000_000_000 + ns,
                60_000_000_000,
            );
        },
        TimePrecision::Second { decimal_digits } => {
            write_separator(out, c, COLON);
            format_number_pad_zero(out, t.minute as u128, 2);
            write_separator(out, c, COLON);
            format_number_pad_zero(out, t.second as u128, 2);
            write_iso_fraction(out, decimal_digits, ns, 1_000_000_000);
        },
    }
    assert(out@ =~= old(out)@ + iso_time(*c, t));
}

fn write_iso_offset(out: &mut Vec<u8>, c: &Config, o: UtcOffset) -> (r: Result<(), FormatError>)
    ensures
        match iso_offset(*c, o) {
            Ok(b) => r is Ok && final(out)@ == old(out)@ + b,
            Err(e) => r == Err::<(), FormatError>(e),
        },
{
    if c.time_flag() && o.is_utc() {
        out.push(LETTER_Z);
        assert(out@ =~= old(out)@ + seq![LETTER_Z]);
        return Ok(());
    }
    if o.seconds != 0 {
        return Err(FormatError::InvalidComponent("offset_second"));
    }
    match c.offset_precision {
        OffsetPrecision::Hour => {
            if o.minutes != 0 {
                return Err(FormatError::InvalidComponent("offset_minute"));
            }
        },
        OffsetPrecision::Minute => {},
    }
    if o.is_negative() {
        out.push(HYPHEN);
    } else {
        out.push(PLUS);
    }
    format_number_pad_zero(out, unsigned_abs8(o.hours) as u128, 2);
    match c.offset_precision {
        OffsetPrecision::Hour => {},
        OffsetPrecision::Minute => {
            write_separator(out, c, COLON);
            format_number_pad_zero(out, unsigned_abs8(o.minutes) as u128, 2);
        },
    }
    assert(out@ =~= old(out)@ + iso_offset(*c, o)->Ok_0);
    Ok(())
}

/// ISO 8601 under a valid configuration.
#[derive(Debug, Clone, Copy, PartialEq, Eq)]
pub struct Iso8601 {
    config: Config,
}

impl Iso8601 {
    /// The configuration this format was made with.
    pub closed spec fn spec_config(self) -> Config {
        self.config
    }

    /// A format under `config`, or `None` when the configuration asks for
    /// more than nine decimal places.
    pub fn new(config: Config) -> (r: Option<Iso8601>)
        ensures
            r matches Some(f) <==> config.wf(),
            r matches Some(f) ==> f.spec_config() == config,
    {
        match config.time_precision {
            TimePrecision::Hour { decimal_digits }
            | TimePrecision::Minute { decimal_digits }
            | TimePrecision::Second { decimal_digits } => {
                if decimal_digits > 9 {
                    return None;
                }
            },
        }
        Some(Iso8601 { config })
    }

    /// Whether the configuration writes anything, so that the format can be
    /// used for formatting.
    pub fn formats_anything(&self) -> (r: bool)
        ensures
            r == self.spec_config().formats_anything(),
    {
        !matches!(self.config.formatted_components, FormattedComponents::Nothing)
    }

    /// The configuration this format was made with.
    pub fn config(&self) -> (r: Config)
        ensures
            r == self.spec_config(),
            r.wf(),
    {
        proof {
            use_type_invariant(self);
        }
        self.config
    }

    /// Every format has a valid configuration.
    #[verifier::type_invariant]
    spec fn inv(self) -> bool {
        self.config.wf()
    }

    /// Writes the values as ISO 8601; on success returns the number of bytes
    /// appended. A configuration that writes nothing is for reading text only
    /// and cannot be used here.
    pub fn format_into(
        &self,
        out: &mut Vec<u8>,
        date: Option<Date>,
        time: Option<Time>,
        offset: Option<UtcOffset>,
    ) -> (r: Result<usize, FormatError>)
        requires
            self.spec_config().formats_anything(),
        ensures
            outcome_matches(iso_output(self.spec_config(), date, time, offset), old(out)@, final(out)@, r),
    {
        proof {
            use_type_invariant(self);
        }
        let c = &self.config;
        let start = out.len();
        let missing = Err(FormatError::InsufficientTypeInformation);
        if c.date_flag() {
            match date {
                Some(d) => match write_iso_date(out, c, d) {
                    Err(e) => return Err(e),
                    Ok(()) => {},
                },
                None => return missing,
            }
        }
        if c.time_flag() {
            match time {
                Some(t) => write_iso_time(out, c, t),
                None => return missing,
            }
        }
        if c.offset_flag() {
            match offset {
                Some(o) => match write_iso_offset(out, c, o) {
                    Err(e) => return Err(e),
                    Ok(()) => {},
                },
                None => return missing,
            }
        }
        assert(out@ =~= old(out)@ + iso_output(self.spec_config(), date, time, offset)->Ok_0);
        Ok(out.len() - start)
    }
}

/// Field codes of the packed form of a configuration. From the lowest bit
/// up: components (3 bits), separators (1), six-digit year (1), date kind
/// (2), time precision (2), decimal places (4), offset precision (1).
pub open spec fn components_code(f: FormattedComponents) -> nat {
    match f {
        FormattedComponents::Nothing => 0,
        FormattedComponents::Date => 1,
        FormattedComponents::Time => 2,
        FormattedComponents::Offset => 3,
        FormattedComponents::DateTime => 4,
        FormattedComponents::DateTimeOffset => 5,
        FormattedComponents::TimeOffset => 6,
    }
}

pub open spec fn date_kind_code(k: DateKind) -> nat {
    match k {
        DateKind::Calendar => 0,
        DateKind::Week => 1,
        DateKind::Ordinal => 2,
    }
}

pub open spec fn time_precision_code(p: TimePrecision) -> nat {
    match p {
        TimePrecision::Hour { .. } => 0,
        TimePrecision::Minute { .. } => 1,
        TimePrecision::Second { .. } => 2,
    }
}

pub open spec fn offset_precision_code(p: OffsetPrecision) -> nat {
    match p {
        OffsetPrecision::Hour => 0,
        OffsetPrecision::Minute => 1,
    }
}

pub open spec fn bit(b: bool) -> nat {
    if b {
        1
    } else {
        0
    }
}

/// The packed form of a configuration.
pub open spec fn spec_encode(c: Config) -> nat {
    components_code(c.formatted_components) + 8 * bit(c.use_separators) + 16 * bit(
        c.year_is_six_digits,
    ) + 32 * date_kind_code(c.date_kind) + 128 * time_precision_code(c.time_precision) + 512
        * (decimal_digits_of(c.time_precision) as nat) + 8192 * offset_precision_code(
        c.offset_precision,
    )
}

/// Whether `e` is the packed form of a valid configuration.
pub open spec fn is_encoding(e: nat) -> bool {
    &&& e < 16384
    &&& e % 8 != 7
    &&& (e / 32) % 4 != 3
    &&& (e / 128) % 4 != 3
    &&& (e / 512) % 16 <= 9
}

/// The fields of a packed configuration, read back.
pub open spec fn fields_of(e: nat) -> (nat, nat, nat, nat, nat, nat, nat) {
    (e % 8, (e / 8) % 2, (e / 16) % 2, (e / 32) % 4, (e / 128) % 4, (e / 512) % 16, e / 8192)
}

/// The fields of a configuration, as codes.
pub open spec fn codes_of(c: Config) -> (nat, nat, nat, nat, nat, nat, nat) {
    (
        components_code(c.formatted_components),
        bit(c.use_separators),
        bit(c.year_is_six_digits),
        date_kind_code(c.date_kind),
        time_precision_code(c.time_precision),
        decimal_digits_of(c.time_precision) as nat,
        offset_precision_code(c.offset_precision),
    )
}

proof fn lemma_pack_unpack(a: nat, b: nat, c: nat, d: nat, t: nat, g: nat, o: nat)
    requires
        a < 8,
        b < 2,
        c < 2,
        d < 4,
        t < 4,
        g < 16,
        o < 2,
    ensures
        fields_of(a + 8 * b + 16 * c + 32 * d + 128 * t + 512 * g + 8192 * o) == (a, b, c, d, t, g, o),
        a + 8 * b + 16 * c + 32 * d + 128 * t + 512 * g + 8192 * o < 16384,
{
    let e = a + 8 * b + 16 * c + 32 * d + 128 * t + 512 * g + 8192 * o;
    assert(e % 8 == a && e / 8 == b + 2 * c + 4 * d + 16 * t + 64 * g + 1024 * o) by (nonlinear_arith)
        requires
            e == a + 8 * b + 16 * c + 32 * d + 128 * t + 512 * g + 8192 * o,
            a < 8,
    ;
    let e8 = e / 8;
    assert(e8 % 2 == b && e8 / 2 == c + 2 * d + 8 * t + 32 * g + 512 * o) by (nonlinear_arith)
        requires
            e8 == b + 2 * c + 4 * d + 16 * t + 64 * g + 1024 * o,
            b < 2,
    ;
    assert(e / 16 == e8 / 2) by (nonlinear_arith)
        requires
            e8 == e / 8,
    ;
    let e16 = e / 16;
    assert(e16 % 2 == c && e16 / 2 == d + 4 * t + 16 * g + 256 * o) by (nonlinear_arith)
        requires
            e16 == c + 2 * d + 8 * t + 32 * g + 512 * o,
            c < 2,
    ;
    assert(e / 32 == e16 / 2) by (nonlinear_arith)
        requires
            e16 == e / 16,
    ;
    let e32 = e / 32;
    assert(e32 % 4 == d && e32 / 4 == t + 4 * g + 64 * o) by (nonlinear_arith)
        requires
            e32 == d + 4 * t + 16 * g + 256 * o,
            d < 4,
    ;
    assert(e / 128 == e32 / 4) by (nonlinear_arith)
        requires
            e32 == e / 32,
    ;
    let e128 = e / 128;
    assert(e128 % 4 == t && e128 / 4 == g + 16 * o) by (nonlinear_arith)
        requires
            e128 == t + 4 * g + 64 * o,
            t < 4,
    ;
    assert(e / 512 == e128 / 4) by (nonlinear_arith)
        requires
            e128 == e / 128,
    ;
    let e512 = e / 512;
    assert(e512 % 16 == g && e512 / 16 == o) by (nonlinear_arith)
        requires
            e512 == g + 16 * o,
            g < 16,
    ;
    assert(e / 8192 == e512 / 16) by (nonlinear_arith)
        requires
            e512 == e / 512,
    ;
}

/// Packing a valid configuration gives a valid packed form, from which the
/// configuration's fields are read back unchanged.
pub proof fn lemma_encode_round_trip(c: Config)
    requires
        c.wf(),
    ensures
        is_encoding(spec_encode(c)),
        fields_of(spec_encode(c)) == codes_of(c),
{
    let k = codes_of(c);
    lemma_pack_unpack(k.0, k.1, k.2, k.3, k.4, k.5, k.6);
}

/// Two valid configurations with the same packed form are the same.
pub proof fn lemma_encode_injective(c1: Config, c2: Config)
    requires
        c1.wf(),
        c2.wf(),
        spec_encode(c1) == spec_encode(c2),
    ensures
        c1 == c2,
{
    lemma_encode_round_trip(c1);
    lemma_encode_round_trip(c2);
    assert(codes_of(c1) == codes_of(c2));
}

fn encode_components(f: FormattedComponents) -> (r: u32)
    ensures
        r as nat == components_code(f),
        r < 7,
{
    match f {
        FormattedComponents::Nothing => 0,
        FormattedComponents::Date => 1,
        FormattedComponents::Time => 2,
        FormattedComponents::Offset => 3,
        FormattedComponents::DateTime => 4,
        FormattedComponents::DateTimeOffset => 5,
        FormattedComponents::TimeOffset => 6,
    }
}

fn encode_date_kind(k: DateKind) -> (r: u32)
    ensures
        r as nat == date_kind_code(k),
        r < 3,
{
    match k {
        DateKind::Calendar => 0,
        DateKind::Week => 1,
        DateKind::Ordinal => 2,
    }
}

fn encode_time_precision(p: TimePrecision) -> (r: (u32, u32))
    requires
        decimal_digits_of(p) <= 9,
    ensures
        r.0 as nat == time_precision_code(p),
        r.1 as nat == decimal_digits_of(p) as nat,
        r.0 < 3,
        r.1 <= 9,
{
    match p {
        TimePrecision::Hour { decimal_digits } => (0, decimal_digits as u32),
        TimePrecision::Minute { decimal_digits } => (1, decimal_digits as u32),
        TimePrecision::Second { decimal_digits } => (2, decimal_digits as u32),
    }
}

impl Config {
    /// The packed form of this configuration.
    pub fn encode(&self) -> (r: u32)
        requires
            self.wf(),
        ensures
            r as nat == spec_encode(*self),
    {
        let a = encode_components(self.formatted_components);
        let b: u32 = if self.use_separators {
            1
        } else {
            0
        };
        let c: u32 = if self.year_is_six_digits {
            1
        } else {
            0
        };
        let d = encode_date_kind(self.date_kind);
        let (t, g) = encode_time_precision(self.time_precision);
        let o: u32 = match self.offset_precision {
            OffsetPrecision::Hour => 0,
            OffsetPrecision::Minute => 1,
        };
        a + 8 * b + 16 * c + 32 * d + 128 * t + 512 * g + 8192 * o
    }

    /// The configuration packed in `e`, or `None` when `e` packs none.
    pub fn decode(e: u32) -> (r: Option<Config>)
        ensures
            r is Some <==> is_encoding(e as nat),
            r matches Some(c) ==> c.wf() && spec_encode(c) == e as nat,
    {
        if e >= 16384 {
            return None;
        }
        let formatted_components = match e % 8 {
            0 => FormattedComponents::Nothing,
            1 => FormattedComponents::Date,
            2 => FormattedComponents::Time,
            3 => FormattedComponents::Offset,
            4 => FormattedComponents::DateTime,
            5 => FormattedComponents::DateTimeOffset,
            6 => FormattedComponents::TimeOffset,
            _ => return None,
        };
        let date_kind = match (e / 32) % 4 {
            0 => DateKind::Calendar,
            1 => DateKind::Week,
            2 => DateKind::Ordinal,
            _ => return None,
        };
        let digits = (e / 512) % 16;
        if digits > 9 {
            return None;
        }
        let decimal_digits = digits as u8;
        let time_precision = match (e / 128) % 4 {
            0 => TimePrecision::Hour { decimal_digits },
            1 => TimePrecision::Minute { decimal_digits },
            2 => TimePrecision::Second { decimal_digits },
            _ => return None,
        };
        proof {
            lemma_repack(e as nat);
        }
        let offset_precision = if e / 8192 == 0 {
            OffsetPrecision::Hour
        } else {
            OffsetPrecision::Minute
        };
        let c = Config {
            formatted_components,
            use_separators: (e / 8) % 2 == 1,
            year_is_six_digits: (e / 16) % 2 == 1,
            date_kind,
            time_precision,
            offset_precision,
        };
        proof {
            lemma_repack(e as nat);
            assert(codes_of(c) == fields_of(e as nat));
        }
        Some(c)
    }
}

/// A number below 16384 is the sum of its fields, each in its place.
proof fn lemma_repack(e: nat)
    requires
        e < 16384,
    ensures
        e == fields_of(e).0 + 8 * fields_of(e).1 + 16 * fields_of(e).2 + 32 * fields_of(e).3 + 128
            * fields_of(e).4 + 512 * fields_of(e).5 + 8192 * fields_of(e).6,
        fields_of(e).6 < 2,
{
    let x = e as int;
    lemma_fundamental_div_mod(x, 8);
    lemma_fundamental_div_mod(x / 8, 2);
    lemma_div_denominator(x, 8, 2);
    lemma_fundamental_div_mod(x / 16, 2);
    lemma_div_denominator(x, 16, 2);
    lemma_fundamental_div_mod(x / 32, 4);
    lemma_div_denominator(x, 32, 4);
    lemma_fundamental_div_mod(x / 128, 4);
    lemma_div_denominator(x, 128, 4);
    lemma_fundamental_div_mod(x / 512, 16);
    lemma_div_denominator(x, 512, 16);
}

impl Iso8601 {
    /// The format whose configuration is packed in `e`, or `None` when `e`
    /// packs no valid configuration.
    pub fn from_encoded(e: u32) -> (r: Option<Iso8601>)
        ensures
            r is Some <==> is_encoding(e as nat),
            r matches Some(f) ==> spec_encode(f.spec_config()) == e as nat,
    {
        match Config::decode(e) {
            Some(c) => Iso8601::new(c),
            None => None,
        }
    }
}

} // verus!
