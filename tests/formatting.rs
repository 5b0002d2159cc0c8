use time_format::component::Component;
use time_format::digits::{format_number_pad_space, format_number_pad_zero};
use time_format::error::FormatError;
use time_format::formattable::Sealed;
use time_format::iso8601::{Config, DateKind, FormattedComponents, Iso8601, OffsetPrecision, TimePrecision};
use time_format::item::FormatItem;
use time_format::modifier;
use time_format::modifier::{MonthRepr, Padding, SubsecondDigits, UnixTimestampPrecision, WeekdayRepr, YearRepr};
use time_format::value::{Date, Month, Time, UtcOffset, Weekday};
use time_format::well_known::{Rfc2822, Rfc3339};

fn march_14_2024() -> Date {
    Date {
        year: 2024,
        month: Month::March,
        day: 14,
        ordinal: 74,
        weekday: Weekday::Thursday,
        iso_year: 2024,
        iso_week: 11,
        sunday_week: 10,
        monday_week: 11,
        julian_day: 2_460_384,
    }
}

fn time(hour: u8, minute: u8, second: u8, nanosecond: u32) -> Time {
    Time { hour, minute, second, nanosecond }
}

fn offset(hours: i8, minutes: i8, seconds: i8) -> UtcOffset {
    UtcOffset { hours, minutes, seconds }
}

fn utc() -> UtcOffset {
    offset(0, 0, 0)
}

fn second() -> Component {
    Component::Second(modifier::Second { padding: Padding::Zero })
}

fn subsecond(digits: SubsecondDigits) -> Component {
    Component::Subsecond(modifier::Subsecond { digits })
}

fn render(item: &FormatItem, d: Option<Date>, t: Option<Time>, o: Option<UtcOffset>) -> Result<String, FormatError> {
    item.format(d, t, o)
}

#[test]
fn rfc3339_utc() {
    let s = Rfc3339.format(Some(march_14_2024()), Some(time(1, 2, 3, 0)), Some(utc()));
    assert_eq!(s, Ok("2024-03-14T01:02:03Z".to_string()));
}

#[test]
fn rfc3339_positive_offset() {
    let s = Rfc3339.format(Some(march_14_2024()), Some(time(1, 2, 3, 0)), Some(offset(5, 30, 0)));
    assert_eq!(s, Ok("2024-03-14T01:02:03+05:30".to_string()));
}

#[test]
fn rfc3339_fraction_trimmed() {
    let s = Rfc3339.format(Some(march_14_2024()), Some(time(1, 2, 3, 120_000_000)), Some(utc()));
    assert_eq!(s, Ok("2024-03-14T01:02:03.12Z".to_string()));
}

#[test]
fn rfc3339_fraction_full_width_and_negative_offset() {
    let s = Rfc3339.format(Some(march_14_2024()), Some(time(23, 59, 59, 1)), Some(offset(-3, -30, 0)));
    assert_eq!(s, Ok("2024-03-14T23:59:59.000000001-03:30".to_string()));
}

#[test]
fn rfc3339_byte_count() {
    let mut buf: Vec<u8> = vec![b'x'];
    let n = Rfc3339.format_into(&mut buf, Some(march_14_2024()), Some(time(1, 2, 3, 0)), Some(utc()));
    assert_eq!(n, Ok(20));
    assert_eq!(buf.len(), 21);
}

#[test]
fn rfc3339_year_out_of_range() {
    let mut d = march_14_2024();
    d.year = 10_000;
    let s = Rfc3339.format(Some(d), Some(time(1, 2, 3, 0)), Some(utc()));
    assert_eq!(s, Err(FormatError::InvalidComponent("year")));
    d.year = -1;
    let s = Rfc3339.format(Some(d), Some(time(1, 2, 3, 0)), Some(utc()));
    assert_eq!(s, Err(FormatError::InvalidComponent("year")));
}

#[test]
fn rfc3339_offset_seconds_rejected() {
    let s = Rfc3339.format(Some(march_14_2024()), Some(time(1, 2, 3, 0)), Some(offset(1, 0, 30)));
    assert_eq!(s, Err(FormatError::InvalidComponent("offset_second")));
}

#[test]
fn rfc3339_missing_values() {
    assert_eq!(
        Rfc3339.format(Some(march_14_2024()), None, Some(utc())),
        Err(FormatError::InsufficientTypeInformation)
    );
    assert_eq!(
        Rfc3339.format(None, Some(time(1, 2, 3, 0)), Some(utc())),
        Err(FormatError::InsufficientTypeInformation)
    );
    assert_eq!(
        Rfc3339.format(Some(march_14_2024()), Some(time(1, 2, 3, 0)), None),
        Err(FormatError::InsufficientTypeInformation)
    );
}

#[test]
fn rfc2822_basic() {
    let s = Rfc2822.format(Some(march_14_2024()), Some(time(1, 2, 3, 999)), Some(offset(5, 30, 0)));
    assert_eq!(s, Ok("Thu, 14 Mar 2024 01:02:03 +0530".to_string()));
}

#[test]
fn rfc2822_negative_offset() {
    let s = Rfc2822.format(Some(march_14_2024()), Some(time(13, 0, 0, 0)), Some(offset(0, -45, 0)));
    assert_eq!(s, Ok("Thu, 14 Mar 2024 13:00:00 -0045".to_string()));
}

#[test]
fn rfc2822_year_1899_rejected() {
    let mut d = march_14_2024();
    d.year = 1899;
    for o in [utc(), offset(5, 30, 0), offset(-8, 0, 0)] {
        let s = Rfc2822.format(Some(d), Some(time(12, 0, 0, 0)), Some(o));
        assert_eq!(s, Err(FormatError::InvalidComponent("year")));
    }
}

#[test]
fn rfc2822_offset_seconds_rejected() {
    let s = Rfc2822.format(Some(march_14_2024()), Some(time(1, 2, 3, 0)), Some(offset(-1, 0, -1)));
    assert_eq!(s, Err(FormatError::InvalidComponent("offset_second")));
}

#[test]
fn rfc2822_missing_offset() {
    let s = Rfc2822.format(Some(march_14_2024()), Some(time(1, 2, 3, 0)), None);
    assert_eq!(s, Err(FormatError::InsufficientTypeInformation));
}

#[test]
fn number_pad_zero_width_four() {
    let mut buf = Vec::new();
    let n = format_number_pad_zero(&mut buf, 7, 4);
    assert_eq!(n, 4);
    assert_eq!(buf, b"0007".to_vec());
}

#[test]
fn number_pad_zero_wider_value_is_kept_whole() {
    let mut buf = Vec::new();
    let n = format_number_pad_zero(&mut buf, 12345, 4);
    assert_eq!(n, 5);
    assert_eq!(buf, b"12345".to_vec());
}

#[test]
fn number_pad_space() {
    let mut buf = Vec::new();
    let n = format_number_pad_space(&mut buf, 7, 3);
    assert_eq!(n, 3);
    assert_eq!(buf, b"  7".to_vec());
}

#[test]
fn zero_time_second_and_subsecond_ignorable() {
    let t = Some(time(0, 0, 0, 0));
    assert!(second().fmt_ignore(None, t, None));
    assert!(subsecond(SubsecondDigits::OneOrMore).fmt_ignore(None, t, None));
}

#[test]
fn half_second_subsecond_not_ignorable() {
    let t = Some(time(0, 0, 0, 500_000_000));
    assert!(second().fmt_ignore(None, t, None));
    assert!(!subsecond(SubsecondDigits::OneOrMore).fmt_ignore(None, t, None));
    assert!(!subsecond(SubsecondDigits::One).fmt_ignore(None, t, None));
}

#[test]
fn subsecond_below_shown_digits_is_ignorable() {
    let t = Some(time(0, 0, 0, 1));
    assert!(subsecond(SubsecondDigits::Two).fmt_ignore(None, t, None));
    assert!(!subsecond(SubsecondDigits::Nine).fmt_ignore(None, t, None));
}

#[test]
fn absent_values_are_ignorable() {
    assert!(second().fmt_ignore(None, None, None));
    let oh = Component::OffsetHour(modifier::OffsetHour { sign_is_mandatory: true, padding: Padding::Zero });
    assert!(oh.fmt_ignore(None, None, None));
    assert!(oh.fmt_ignore(None, None, Some(utc())));
    assert!(!oh.fmt_ignore(None, None, Some(offset(0, 0, 5))));
    let om = Component::OffsetMinute(modifier::OffsetMinute { padding: Padding::Zero });
    assert!(om.fmt_ignore(None, None, Some(offset(3, 0, 5))));
    let day = Component::Day(modifier::Day { padding: Padding::Zero });
    assert!(!day.fmt_ignore(None, None, None));
}

#[test]
fn compound_ignorable_iff_all_children() {
    let t = Some(time(4, 5, 0, 0));
    let both = FormatItem::Compound(vec![FormatItem::Component(second()), FormatItem::Component(subsecond(SubsecondDigits::Three))]);
    assert!(both.fmt_ignore(None, t, None));
    let with_minute = FormatItem::Compound(vec![
        FormatItem::Component(second()),
        FormatItem::Component(Component::Minute(modifier::Minute { padding: Padding::Zero })),
    ]);
    assert!(!with_minute.fmt_ignore(None, t, None));
    assert!(FormatItem::Compound(vec![]).fmt_ignore(None, None, None));
    assert!(!FormatItem::Literal(b":".to_vec()).fmt_ignore(None, t, None));
}

#[test]
fn optional_ignorable_subtree_writes_nothing() {
    let item = FormatItem::Optional(Box::new(FormatItem::Component(second())));
    let mut buf = Vec::new();
    assert_eq!(item.format_into(&mut buf, true, None, Some(time(1, 2, 0, 0)), None), Ok(0));
    assert_eq!(item.format_into(&mut buf, false, None, Some(time(1, 2, 0, 0)), None), Ok(0));
    assert!(buf.is_empty());
}

#[test]
fn optional_non_ignorable_subtree_writes_subtree() {
    let inner = FormatItem::Compound(vec![FormatItem::Literal(b":".to_vec()), FormatItem::Component(second())]);
    let t = Some(time(1, 2, 7, 0));
    let direct = render(&inner, None, t, None);
    let item = FormatItem::Optional(Box::new(inner));
    assert_eq!(render(&item, None, t, None), direct);
    assert_eq!(direct, Ok(":07".to_string()));
}

#[test]
fn first_with_no_alternatives_writes_nothing() {
    let item = FormatItem::First(vec![]);
    let mut buf = vec![b'a'];
    assert_eq!(item.format_into(&mut buf, false, None, None, None), Ok(0));
    assert_eq!(item.format_into(&mut buf, true, Some(march_14_2024()), Some(time(1, 2, 3, 4)), Some(utc())), Ok(0));
    assert_eq!(buf, vec![b'a']);
}

#[test]
fn first_uses_only_first_alternative() {
    let item = FormatItem::First(vec![
        FormatItem::Literal(b"one".to_vec()),
        FormatItem::Component(Component::Hour(modifier::Hour { padding: Padding::Zero, is_12_hour_clock: false })),
    ]);
    assert_eq!(render(&item, None, None, None), Ok("one".to_string()));
}

#[test]
fn evaluation_is_deterministic() {
    let item = FormatItem::Compound(vec![
        FormatItem::Component(Component::Year(modifier::Year {
            padding: Padding::Zero,
            repr: YearRepr::Full,
            iso_week_based: false,
            sign_is_mandatory: false,
        })),
        FormatItem::Literal(b"-".to_vec()),
        FormatItem::Component(Component::Ordinal(modifier::Ordinal { padding: Padding::Zero })),
    ]);
    let mut a = Vec::new();
    let mut b = vec![b'#'];
    let ra = item.format_into(&mut a, false, Some(march_14_2024()), None, None);
    let rb = item.format_into(&mut b, false, Some(march_14_2024()), None, None);
    assert_eq!(ra, rb);
    assert_eq!(ra, Ok(8));
    assert_eq!(a, b"2024-074".to_vec());
    assert_eq!(&b[1..], &a[..]);
}

#[test]
fn missing_value_in_tree_fails() {
    let item = FormatItem::Compound(vec![
        FormatItem::Literal(b"at ".to_vec()),
        FormatItem::Component(Component::Hour(modifier::Hour { padding: Padding::Zero, is_12_hour_clock: false })),
    ]);
    assert_eq!(render(&item, Some(march_14_2024()), None, None), Err(FormatError::InsufficientTypeInformation));
}

#[test]
fn date_components_render() {
    let item = FormatItem::Compound(vec![
        FormatItem::Component(Component::Weekday(modifier::Weekday { repr: WeekdayRepr::Long, one_indexed: true })),
        FormatItem::Literal(b" ".to_vec()),
        FormatItem::Component(Component::Month(modifier::Month { padding: Padding::Zero, repr: MonthRepr::Long })),
        FormatItem::Literal(b" ".to_vec()),
        FormatItem::Component(Component::Day(modifier::Day { padding: Padding::Space })),
        FormatItem::Literal(b" ".to_vec()),
        FormatItem::Component(Component::Weekday(modifier::Weekday { repr: WeekdayRepr::Sunday, one_indexed: false })),
        FormatItem::Component(Component::Weekday(modifier::Weekday { repr: WeekdayRepr::Monday, one_indexed: true })),
        FormatItem::Literal(b" ".to_vec()),
        FormatItem::Component(Component::Year(modifier::Year {
            padding: Padding::Zero,
            repr: YearRepr::LastTwo,
            iso_week_based: false,
            sign_is_mandatory: true,
        })),
        FormatItem::Literal(b" ".to_vec()),
        FormatItem::Component(Component::Month(modifier::Month { padding: Padding::Unpadded, repr: MonthRepr::Numerical })),
    ]);
    assert_eq!(render(&item, Some(march_14_2024()), None, None), Ok("Thursday March 14 44 24 3".to_string()));
}

#[test]
fn year_sign_and_padding() {
    let year = |sign_is_mandatory| {
        FormatItem::Component(Component::Year(modifier::Year {
            padding: Padding::Zero,
            repr: YearRepr::Full,
            iso_week_based: false,
            sign_is_mandatory,
        }))
    };
    let mut d = march_14_2024();
    d.year = 987;
    assert_eq!(render(&year(true), Some(d), None, None), Ok("+0987".to_string()));
    d.year = -45;
    assert_eq!(render(&year(false), Some(d), None, None), Ok("-0045".to_string()));
}

#[test]
fn time_components_render() {
    let item = FormatItem::Compound(vec![
        FormatItem::Component(Component::Hour(modifier::Hour { padding: Padding::Space, is_12_hour_clock: true })),
        FormatItem::Literal(b":".to_vec()),
        FormatItem::Component(Component::Minute(modifier::Minute { padding: Padding::Zero })),
        FormatItem::Literal(b" ".to_vec()),
        FormatItem::Component(Component::Period(modifier::Period { is_uppercase: false })),
        FormatItem::Optional(Box::new(FormatItem::Compound(vec![
            FormatItem::Component(subsecond(SubsecondDigits::OneOrMore)),
        ]))),
    ]);
    assert_eq!(render(&item, None, Some(time(0, 5, 0, 0)), None), Ok("12:05 am".to_string()));
    assert_eq!(render(&item, None, Some(time(15, 30, 0, 250_000_000)), None), Ok(" 3:30 pm25".to_string()));
}

#[test]
fn offset_components_render() {
    let item = FormatItem::Compound(vec![
        FormatItem::Component(Component::OffsetHour(modifier::OffsetHour { sign_is_mandatory: true, padding: Padding::Zero })),
        FormatItem::Literal(b":".to_vec()),
        FormatItem::Component(Component::OffsetMinute(modifier::OffsetMinute { padding: Padding::Zero })),
        FormatItem::Literal(b":".to_vec()),
        FormatItem::Component(Component::OffsetSecond(modifier::OffsetSecond { padding: Padding::Zero })),
    ]);
    assert_eq!(render(&item, None, None, Some(offset(5, 30, 0))), Ok("+05:30:00".to_string()));
    assert_eq!(render(&item, None, None, Some(offset(-1, -2, -3))), Ok("-01:02:03".to_string()));
}

#[test]
fn ignore_component_writes_nothing() {
    let item = FormatItem::Component(Component::Ignore(modifier::Ignore { count: 4 }));
    assert_eq!(render(&item, None, None, None), Ok(String::new()));
}

#[test]
fn unix_timestamp_renders() {
    let ts = |precision, sign_is_mandatory| {
        FormatItem::Component(Component::UnixTimestamp(modifier::UnixTimestamp { precision, sign_is_mandatory }))
    };
    let d = Some(march_14_2024());
    let t = Some(time(1, 2, 3, 456_000_000));
    assert_eq!(render(&ts(UnixTimestampPrecision::Second, false), d, t, Some(utc())), Ok("1710378123".to_string()));
    assert_eq!(render(&ts(UnixTimestampPrecision::Millisecond, true), d, t, Some(utc())), Ok("+1710378123456".to_string()));
    assert_eq!(render(&ts(UnixTimestampPrecision::Second, false), d, t, Some(offset(1, 0, 0))), Ok("1710374523".to_string()));
    let before_epoch = Date { julian_day: 2_440_587, ..march_14_2024() };
    assert_eq!(
        render(&ts(UnixTimestampPrecision::Second, false), Some(before_epoch), Some(time(23, 59, 59, 500_000_000)), Some(utc())),
        Ok("0".to_string())
    );
    assert_eq!(
        render(&ts(UnixTimestampPrecision::Millisecond, false), Some(before_epoch), Some(time(23, 59, 59, 500_000_000)), Some(utc())),
        Ok("-500".to_string())
    );
    assert_eq!(render(&ts(UnixTimestampPrecision::Second, false), d, t, None), Err(FormatError::InsufficientTypeInformation));
}

fn iso(config: Config) -> Iso8601 {
    Iso8601::new(config).unwrap()
}

#[test]
fn iso8601_default() {
    let f = iso(Config::default_config());
    let s = f.format(Some(march_14_2024()), Some(time(1, 2, 3, 120_000_000)), Some(offset(5, 30, 0)));
    assert_eq!(s, Ok("2024-03-14T01:02:03.120000000+05:30".to_string()));
    let s = f.format(Some(march_14_2024()), Some(time(1, 2, 3, 0)), Some(utc()));
    assert_eq!(s, Ok("2024-03-14T01:02:03.000000000Z".to_string()));
}

#[test]
fn iso8601_basic_week_date() {
    let config = Config {
        formatted_components: FormattedComponents::DateTime,
        use_separators: false,
        year_is_six_digits: false,
        date_kind: DateKind::Week,
        time_precision: TimePrecision::Minute { decimal_digits: 0 },
        offset_precision: OffsetPrecision::Minute,
    };
    let s = iso(config).format(Some(march_14_2024()), Some(time(1, 2, 3, 0)), None);
    assert_eq!(s, Ok("2024W114T0102".to_string()));
}

#[test]
fn iso8601_ordinal_six_digit_year() {
    let config = Config {
        formatted_components: FormattedComponents::Date,
        use_separators: true,
        year_is_six_digits: true,
        date_kind: DateKind::Ordinal,
        time_precision: TimePrecision::Second { decimal_digits: 0 },
        offset_precision: OffsetPrecision::Minute,
    };
    let s = iso(config).format(Some(march_14_2024()), None, None);
    assert_eq!(s, Ok("+002024-074".to_string()));
}

#[test]
fn iso8601_hour_fraction() {
    let config = Config {
        formatted_components: FormattedComponents::Time,
        use_separators: false,
        year_is_six_digits: false,
        date_kind: DateKind::Calendar,
        time_precision: TimePrecision::Hour { decimal_digits: 2 },
        offset_precision: OffsetPrecision::Minute,
    };
    let s = iso(config).format(None, Some(time(10, 30, 0, 0)), None);
    assert_eq!(s, Ok("10.50".to_string()));
}

#[test]
fn iso8601_offset_only() {
    let config = Config {
        formatted_components: FormattedComponents::Offset,
        use_separators: true,
        year_is_six_digits: false,
        date_kind: DateKind::Calendar,
        time_precision: TimePrecision::Second { decimal_digits: 0 },
        offset_precision: OffsetPrecision::Hour,
    };
    assert_eq!(iso(config).format(None, None, Some(utc())), Ok("+00".to_string()));
    assert_eq!(iso(config).format(None, None, Some(offset(-5, 0, 0))), Ok("-05".to_string()));
    assert_eq!(
        iso(config).format(None, None, Some(offset(5, 30, 0))),
        Err(FormatError::InvalidComponent("offset_minute"))
    );
    assert_eq!(
        iso(config).format(None, None, Some(offset(5, 0, 1))),
        Err(FormatError::InvalidComponent("offset_second"))
    );
}

#[test]
fn iso8601_errors() {
    let f = iso(Config::default_config());
    let mut d = march_14_2024();
    d.year = 12_345;
    assert_eq!(f.format(Some(d), Some(time(1, 2, 3, 0)), Some(utc())), Err(FormatError::InvalidComponent("year")));
    assert_eq!(f.format(Some(march_14_2024()), None, Some(utc())), Err(FormatError::InsufficientTypeInformation));
}

#[test]
fn iso8601_rejects_too_many_decimals() {
    let mut config = Config::default_config();
    config.time_precision = TimePrecision::Second { decimal_digits: 10 };
    assert!(Iso8601::new(config).is_none());
    config.time_precision = TimePrecision::Second { decimal_digits: 9 };
    assert_eq!(Iso8601::new(config).map(|f| f.config()), Some(config));
}

#[test]
fn vec_of_items_formats_in_sequence() {
    let items = vec![FormatItem::Literal(b"T".to_vec()), FormatItem::Component(second())];
    let mut buf = Vec::new();
    assert_eq!(items.format_into(&mut buf, false, None, Some(time(0, 0, 9, 0)), None), Ok(3));
    assert_eq!(buf, b"T09".to_vec());
    let ignorable = vec![FormatItem::Component(second())];
    assert_eq!(ignorable.format_into(&mut buf, true, None, Some(time(0, 0, 0, 0)), None), Ok(0));
}

#[test]
fn iso8601_config_encoding_round_trip() {
    let config = Config::default_config();
    let e = config.encode();
    assert_eq!(e, 13069);
    assert_eq!(Config::decode(e), Some(config));
    let basic = Config {
        formatted_components: FormattedComponents::TimeOffset,
        use_separators: false,
        year_is_six_digits: true,
        date_kind: DateKind::Ordinal,
        time_precision: TimePrecision::Hour { decimal_digits: 3 },
        offset_precision: OffsetPrecision::Hour,
    };
    assert_eq!(Config::decode(basic.encode()), Some(basic));
}

#[test]
fn iso8601_config_decoding_rejects() {
    assert_eq!(Config::decode(7), None);
    assert_eq!(Config::decode(16384), None);
    assert_eq!(Config::decode(96), None);
    assert_eq!(Config::decode(10 * 512), None);
    assert!(Iso8601::from_encoded(13069).is_some());
}

#[test]
fn iso8601_from_encoded_formats() {
    let f = Iso8601::from_encoded(13069).unwrap();
    let s = f.format(Some(march_14_2024()), Some(time(1, 2, 3, 0)), Some(offset(-5, 0, 0)));
    assert_eq!(s, Ok("2024-03-14T01:02:03.000000000-05:00".to_string()));
}
