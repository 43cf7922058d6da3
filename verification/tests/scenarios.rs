use datetime::basic::{Duration, Instant};
use datetime::fmt::ISO;
use datetime::iter::MonthsIter;
use datetime::local::{Date, DateTime, Error, Field, Time};
use datetime::offset;
use datetime::offset::Offset;
use datetime::parse::{fields_to_date, DateError, DateFields};
use datetime::units::{Month, Weekday, Year};
use datetime::util::split_cycles;

#[test]
fn yearday_from_hex_literal() {
    let date = Date::yd(2015, 0x100).unwrap();
    assert_eq!(date.year(), Year::from(2015));
    assert_eq!(date.month(), Month::September);
    assert_eq!(date.day(), 13);
    assert_eq!(date.yearday(), 256);
}

#[test]
fn week_date_rolls_backward() {
    let date = Date::ywd(2009, 1, Weekday::Monday).unwrap();
    assert_eq!(date.year(), Year::from(2008));
    assert_eq!(date.month(), Month::December);
    assert_eq!(date.day(), 29);
    assert_eq!(date.weekday(), Weekday::Monday);
}

#[test]
fn week_date_rolls_forward() {
    let date = Date::ywd(2009, 53, Weekday::Sunday).unwrap();
    assert_eq!(date.year(), Year::from(2010));
    assert_eq!(date.month(), Month::January);
    assert_eq!(date.day(), 3);
    assert_eq!(date.weekday(), Weekday::Sunday);
}

#[test]
fn week_date_mid_year() {
    let date = Date::ywd(2015, 37, Weekday::Friday).unwrap();
    assert_eq!(date.year(), Year::from(2015));
    assert_eq!(date.month(), Month::September);
    assert_eq!(date.day(), 11);
    assert_eq!(date.weekday(), Weekday::Friday);
}

#[test]
fn leap_day_exists_exactly_in_leap_years() {
    for year in 1..3000 {
        assert_eq!(
            Date::ymd(year, Month::February, 29).is_ok(),
            Year::from(year).is_leap_year()
        );
    }
}

#[test]
fn leap_day_round_trips() {
    let date = Date::ymd(2004, Month::February, 29).unwrap();
    assert_eq!(date.year(), Year::from(2004));
    assert_eq!(date.month(), Month::February);
    assert_eq!(date.day(), 29);
    assert_eq!(date.yearday(), 60);
}

#[test]
fn out_of_range_day_reports_its_bounds() {
    assert_eq!(
        Date::ymd(2001, Month::February, 29),
        Err(Error::OutOfRange { field: Field::Day, value: 29, lower: 1, upper: 29 })
    );
    assert_eq!(
        Date::ymd(2000, Month::February, 30),
        Err(Error::OutOfRange { field: Field::Day, value: 30, lower: 1, upper: 30 })
    );
}

#[test]
fn yearday_zero_names_the_day_before_january() {
    let date = Date::yd(2015, 0).unwrap();
    assert_eq!(date, Date::ymd(2014, Month::December, 31).unwrap());
}

#[test]
fn out_of_range_yearday_reports_its_bounds() {
    assert_eq!(
        Date::yd(2015, 366),
        Err(Error::OutOfRange { field: Field::Yearday, value: 366, lower: 0, upper: 366 })
    );
    assert!(Date::yd(2016, 366).is_ok());
}

#[test]
fn out_of_range_time_fields_report_their_bounds() {
    assert_eq!(
        Time::hm(25, 0),
        Err(Error::OutOfRange { field: Field::Hour, value: 25, lower: 0, upper: 24 })
    );
    assert_eq!(
        Time::hms(12, 60, 0),
        Err(Error::OutOfRange { field: Field::Minute, value: 60, lower: 0, upper: 60 })
    );
    assert_eq!(
        Time::hms(12, 0, 61),
        Err(Error::OutOfRange { field: Field::Second, value: 61, lower: 0, upper: 60 })
    );
    assert_eq!(
        Time::hms_ms(12, 0, 0, 1000),
        Err(Error::OutOfRange { field: Field::Millisecond, value: 1000, lower: 0, upper: 1000 })
    );
}

#[test]
fn end_of_day_sentinel() {
    let time = Time::hm(24, 0).unwrap();
    assert_eq!(time.hour(), 24);
    assert_eq!(time.minute(), 0);
    assert!(Time::hms(24, 0, 0).is_ok());
    assert!(Time::hms(24, 0, 1).is_err());
    assert!(Time::hms_ms(24, 0, 0, 0).is_ok());
    assert!(Time::hms_ms(24, 0, 0, 1).is_err());
}

#[test]
fn dates_order_by_calendar_fields() {
    let earlier = Date::ymd(2014, Month::December, 31).unwrap();
    let later = Date::ymd(2015, Month::January, 1).unwrap();
    assert!(earlier < later);
    assert!(Date::ymd(2015, Month::January, 1).unwrap() <= later);
    assert!(Date::ymd(2015, Month::March, 1).unwrap() > later);
}

#[test]
fn time_of_day_round_trip() {
    let time = Time::from_seconds_since_midnight(7265);
    assert_eq!(time.hour(), 2);
    assert_eq!(time.minute(), 1);
    assert_eq!(time.second(), 5);
    assert_eq!(time.to_seconds(), 7265);
    assert_eq!(Time::midnight().to_seconds(), 0);
}

#[test]
fn split_cycles_wraps_negative_remainders() {
    assert_eq!(split_cycles(9, 4), (2, 1));
    assert_eq!(split_cycles(-9, 4), (-3, 3));
    assert_eq!(split_cycles(-8, 4), (-2, 0));
}

#[test]
fn month_lengths_sum_to_year_length() {
    for year in [1999, 2000] {
        let leap = Year::from(year).is_leap_year();
        let mut total: i64 = 0;
        for month in Year::from(year).months(..).to_vec() {
            total += month.day_count() as i64;
        }
        assert_eq!(total, if leap { 366 } else { 365 });
    }
}

#[test]
fn duration_parts_carry_across_seconds() {
    let sum = Instant::at_ms(3, 800) + Duration::of_ms(2, 600);
    assert_eq!(sum.seconds(), 6);
    assert_eq!(sum.milliseconds(), 400);

    let difference = Instant::at_ms(3, 200) - Duration::of_ms(1, 600);
    assert_eq!(difference.seconds(), 1);
    assert_eq!(difference.milliseconds(), 600);

    assert_eq!(Duration::of_ms(5, 250).lengths(), (5, 250));
    assert_eq!(Duration::zero().lengths(), (0, 0));
    assert_eq!(Instant::at_epoch().seconds(), 0);
}

#[test]
fn add_seconds_crosses_midnight() {
    let evening = DateTime::new(
        Date::ymd(1999, Month::December, 31).unwrap(),
        Time::hms(23, 59, 30).unwrap(),
    );
    let morning = evening.add_seconds(45);
    assert_eq!(morning.year(), Year::from(2000));
    assert_eq!(morning.month(), Month::January);
    assert_eq!(morning.day(), 1);
    assert_eq!(morning.hour(), 0);
    assert_eq!(morning.minute(), 0);
    assert_eq!(morning.second(), 15);
}

#[test]
fn weekdays_follow_the_epoch() {
    assert_eq!(Date::ymd(1970, Month::January, 1).unwrap().weekday(), Weekday::Thursday);
    assert_eq!(Date::ymd(2000, Month::March, 1).unwrap().weekday(), Weekday::Wednesday);
    assert_eq!(Date::ymd(2015, Month::September, 13).unwrap().weekday(), Weekday::Sunday);
}

#[test]
fn parses_calendar_dates() {
    let date: Date = "2015-06-26".parse().unwrap();
    assert_eq!(date.year(), Year::from(2015));
    assert_eq!(date.month(), Month::June);
    assert_eq!(date.day(), 26);

    let ordinal: Date = "2015-256".parse().unwrap();
    assert_eq!(ordinal.month(), Month::September);
    assert_eq!(ordinal.day(), 13);
}

#[test]
fn parses_times_and_datetimes() {
    let time: Time = "16:43:16".parse().unwrap();
    assert_eq!(time.hour(), 16);
    assert_eq!(time.minute(), 43);
    assert_eq!(time.second(), 16);

    let datetime: DateTime = "2001-02-03T04:05:06".parse().unwrap();
    assert_eq!(datetime.year(), Year::from(2001));
    assert_eq!(datetime.second(), 6);

    let with_offset: offset::DateTime = "2001-02-03T04:05:06+07:00".parse().unwrap();
    assert_eq!(with_offset.offset.hours(), 7);
    assert_eq!(with_offset.local.year(), Year::from(2001));
}

#[test]
fn rejects_bad_parsed_fields_exactly() {
    assert_eq!(
        fields_to_date(DateFields::Ymd { year: 2015, month: 0, day: 1 }),
        Err(Error::OutOfRange { field: Field::Month, value: 0, lower: 1, upper: 13 })
    );
    assert_eq!(
        fields_to_date(DateFields::Week { year: 2015, week: 1, weekday: 8 }),
        Err(Error::OutOfRange { field: Field::Weekday, value: 8, lower: 1, upper: 8 })
    );
    let ok = fields_to_date(DateFields::Ordinal { year: 2015, yearday: 256 }).unwrap();
    assert_eq!(ok.month(), Month::September);
}

#[test]
fn rejects_text_outside_the_grammar() {
    assert!(matches!("not a date".parse::<Date>(), Err(DateError::Parse(_))));
    assert!(matches!("2001-02-30".parse::<Date>(), Err(DateError::Construct(_))));
}

#[test]
fn rejects_sign_mismatch_exactly() {
    assert_eq!(Offset::of_hours_and_minutes(-4, 30), Err(offset::Error::SignMismatch));
    assert_eq!(Offset::of_hours_and_minutes(4, -30), Err(offset::Error::SignMismatch));
}

#[test]
fn offset_components_carry_the_sign() {
    let west = Offset::of_seconds(-(3 * 3600 + 25 * 60 + 21)).unwrap();
    assert_eq!(west.hours(), -3);
    assert_eq!(west.minutes(), -25);
    assert_eq!(west.seconds(), -21);
    assert!(west.is_negative());
    assert!(!west.is_utc());
    assert!(Offset::utc().is_utc());
    assert!(!Offset::utc().is_negative());
}

#[test]
fn offset_formats_with_seconds() {
    let offset = Offset::of_seconds(3 * 3600 + 25 * 60 + 21).unwrap();
    assert_eq!(offset.iso().to_string(), "+03:25:21");
}

#[test]
fn instant_round_trip_with_milliseconds() {
    let datetime = DateTime::at_ms(1_234_567_890, 123);
    let instant = datetime.to_instant();
    assert_eq!(instant.seconds(), 1_234_567_890);
    assert_eq!(instant.milliseconds(), 123);

    let back = DateTime::from_instant(Instant::at_ms(-987_654_321, 42));
    assert_eq!(back.to_instant().seconds(), -987_654_321);
    assert_eq!(back.millisecond(), 42);
}
