//! Reading dates, times, and datetimes from ISO-8601 text.
//!
//! The grammar itself lives in the `iso8601` crate; this module only
//! carries the parsed fields into the validating constructors.

use core::str::FromStr;
use vstd::prelude::*;

use crate::local;
use crate::local::{Error, Field};
use crate::offset;
use crate::units::{Month, Weekday};

verus! {

/// The fields an ISO-8601 date string carries, in one of its three forms:
/// a calendar date, a week date, or an ordinal date.
#[derive(PartialEq, Eq, Debug, Clone, Copy)]
pub enum DateFields {
    Ymd { year: i32, month: u32, day: u32 },
    Week { year: i32, week: u32, weekday: u32 },
    Ordinal { year: i32, yearday: u32 },
}

/// The fields an ISO-8601 time string carries, with its fixed offset.
#[derive(PartialEq, Eq, Debug, Clone, Copy)]
pub struct TimeFields {
    pub hour: u32,
    pub minute: u32,
    pub second: u32,
    pub millisecond: u32,
    pub tz_offset_hours: i32,
    pub tz_offset_minutes: i32,
}

/// Relies on `iso8601::date`: parses a calendar, week, or ordinal date
/// string, handing its fields across unchanged; a string outside the
/// grammar comes back as a message.
#[verifier::external_body]
fn parse_iso_date(input: &str) -> Result<DateFields, String> {
    match iso8601::date(input) {
        Ok(iso8601::Date::YMD { year, month, day }) => Ok(DateFields::Ymd { year, month, day }),
        Ok(iso8601::Date::Week { year, ww, d }) => Ok(DateFields::Week { year, week: ww, weekday: d }),
        Ok(iso8601::Date::Ordinal { year, ddd }) => Ok(DateFields::Ordinal { year, yearday: ddd }),
        Err(message) => Err(message),
    }
}

/// Relies on `iso8601::time`: parses a time string, handing its six
/// fields across unchanged; a string outside the grammar comes back as a
/// message.
#[verifier::external_body]
fn parse_iso_time(input: &str) -> Result<TimeFields, String> {
    let t = match iso8601::time(input) { Ok(t) => t, Err(message) => return Err(message) };
    Ok(TimeFields { hour: t.hour, minute: t.minute, second: t.second,
        millisecond: t.millisecond, tz_offset_hours: t.tz_offset_hours,
        tz_offset_minutes: t.tz_offset_minutes })
}

/// Relies on `iso8601::datetime`: parses a combined date-and-time string,
/// handing both field sets across unchanged; a string outside the grammar
/// comes back as a message.
#[verifier::external_body]
fn parse_iso_datetime(input: &str) -> Result<(DateFields, TimeFields), String> {
    let dt = match iso8601::datetime(input) { Ok(dt) => dt, Err(message) => return Err(message) };
    let date = match dt.date {
        iso8601::Date::YMD { year, month, day } => DateFields::Ymd { year, month, day },
        iso8601::Date::Week { year, ww, d } => DateFields::Week { year, week: ww, weekday: d },
        iso8601::Date::Ordinal { year, ddd } => DateFields::Ordinal { year, yearday: ddd },
    };
    let t = dt.time;
    Ok((date, TimeFields { hour: t.hour, minute: t.minute, second: t.second,
        millisecond: t.millisecond, tz_offset_hours: t.tz_offset_hours,
        tz_offset_minutes: t.tz_offset_minutes }))
}

/// Builds a date from parsed fields, running them through the same
/// validating constructors that direct callers use.
pub fn fields_to_date(fields: DateFields) -> (r: Result<local::Date, Error>)
    ensures
        match fields {
            DateFields::Ymd { year, month, day } => {
                &&& !(1 <= month <= 12) ==> r == Err::<local::Date, Error>(
                    Error::OutOfRange {
                        field: Field::Month,
                        value: month as i64,
                        lower: 1,
                        upper: 13,
                    },
                )
                &&& 1 <= month <= 12 ==> {
                    let m = crate::iter::months_seq_spec()[month - 1];
                    &&& (1 <= day <= m.days_spec(crate::units::is_leap_spec(year as int)) ==> (
                    r matches Ok(d) && d.wf() && d.year_spec() == year && d.month_spec() == m
                        && d.day_spec() == day))
                    &&& (!(1 <= day <= m.days_spec(crate::units::is_leap_spec(year as int))) ==> r
                        == Err::<local::Date, Error>(
                        Error::OutOfRange {
                            field: Field::Day,
                            value: day as i64,
                            lower: 1,
                            upper: (m.days_spec(crate::units::is_leap_spec(year as int)) + 1) as i64,
                        },
                    ))
                }
            },
            DateFields::Week { year, week, weekday } => {
                &&& !(1 <= weekday <= 7) ==> r == Err::<local::Date, Error>(
                    Error::OutOfRange {
                        field: Field::Weekday,
                        value: weekday as i64,
                        lower: 1,
                        upper: 8,
                    },
                )
                &&& 1 <= weekday <= 7 ==> local::ywd_result_spec(
                    year as int,
                    week as int,
                    crate::units::weekday_from_iso_spec(weekday as int),
                    r,
                )
            },
            DateFields::Ordinal { year, yearday } => {
                &&& 0 <= yearday <= crate::units::year_length_spec(
                    crate::units::is_leap_spec(year as int),
                ) ==> (r matches Ok(d) && d.wf() && d.epoch_days_spec()
                    == crate::days::days_since_epoch_spec(year as int, Month::January, 1) + yearday
                    - 1)
                &&& !(0 <= yearday <= crate::units::year_length_spec(
                    crate::units::is_leap_spec(year as int),
                )) ==> r == Err::<local::Date, Error>(
                    Error::OutOfRange {
                        field: Field::Yearday,
                        value: yearday as i64,
                        lower: 0,
                        upper: (crate::units::year_length_spec(
                            crate::units::is_leap_spec(year as int),
                        ) + 1) as i64,
                    },
                )
            },
        },
{
    match fields {
        DateFields::Ymd { year, month, day } => {
            if !(1 <= month && month <= 12) {
                return Err(
                    Error::OutOfRange {
                        field: Field::Month,
                        value: month as i64,
                        lower: 1,
                        upper: 13,
                    },
                );
            }
            let month_variant = Month::from_one(month as i8).unwrap();
            let leap = crate::units::Year(year as i64).is_leap_year();
            let month_length = month_variant.days_in_month(leap);
            if !(1 <= day && day <= month_length as u32) {
                return Err(
                    Error::OutOfRange {
                        field: Field::Day,
                        value: day as i64,
                        lower: 1,
                        upper: month_length as i64 + 1,
                    },
                );
            }
            proof {
                lemma_month_of_number(month as int);
            }
            local::Date::ymd(year as i64, month_variant, day as i8)
        },
        DateFields::Week { year, week, weekday } => {
            if !(1 <= weekday && weekday <= 7) {
                return Err(
                    Error::OutOfRange {
                        field: Field::Weekday,
                        value: weekday as i64,
                        lower: 1,
                        upper: 8,
                    },
                );
            }
            let weekday_variant = Weekday::from_one(weekday as i8).unwrap();
            local::Date::ywd(year as i64, week as i64, weekday_variant)
        },
        DateFields::Ordinal { year, yearday } => local::Date::yd(year as i64, yearday as i64),
    }
}

/// The month with a given 1-based number, as the month list places it.
proof fn lemma_month_of_number(number: int)
    requires
        1 <= number <= 12,
    ensures
        crate::iter::months_seq_spec()[number - 1].index_spec() == number - 1,
{
}

/// Builds a time from parsed fields, running them through the same
/// validating constructor that direct callers use.
pub fn fields_to_time(fields: TimeFields) -> (r: Result<local::Time, Error>)
    ensures
        fields.hour < 24 && fields.minute < 60 && fields.second < 60 && fields.millisecond < 1000
            ==> (r matches Ok(t) && t.wf() && t.hour_spec() == fields.hour && t.minute_spec()
            == fields.minute && t.second_spec() == fields.second && t.millisecond_spec()
            == fields.millisecond),
        fields.hour >= 24 ==> r == Err::<local::Time, Error>(
            Error::OutOfRange { field: Field::Hour, value: fields.hour as i64, lower: 0, upper: 24 },
        ),
        fields.hour < 24 && fields.minute >= 60 ==> r == Err::<local::Time, Error>(
            Error::OutOfRange {
                field: Field::Minute,
                value: fields.minute as i64,
                lower: 0,
                upper: 60,
            },
        ),
        fields.hour < 24 && fields.minute < 60 && fields.second >= 60 ==> r == Err::<
            local::Time,
            Error,
        >(Error::OutOfRange {
            field: Field::Second,
            value: fields.second as i64,
            lower: 0,
            upper: 60,
        }),
        fields.hour < 24 && fields.minute < 60 && fields.second < 60 && fields.millisecond >= 1000
            ==> r == Err::<local::Time, Error>(
            Error::OutOfRange {
                field: Field::Millisecond,
                value: fields.millisecond as i64,
                lower: 0,
                upper: 1000,
            },
        ),
{
    if fields.hour >= 24 {
        return Err(
            Error::OutOfRange { field: Field::Hour, value: fields.hour as i64, lower: 0, upper: 24 },
        );
    }
    if fields.minute >= 60 {
        return Err(
            Error::OutOfRange {
                field: Field::Minute,
                value: fields.minute as i64,
                lower: 0,
                upper: 60,
            },
        );
    }
    if fields.second >= 60 {
        return Err(
            Error::OutOfRange {
                field: Field::Second,
                value: fields.second as i64,
                lower: 0,
                upper: 60,
            },
        );
    }
    if fields.millisecond >= 1000 {
        return Err(
            Error::OutOfRange {
                field: Field::Millisecond,
                value: fields.millisecond as i64,
                lower: 0,
                upper: 1000,
            },
        );
    }
    local::Time::hms_ms(
        fields.hour as i8,
        fields.minute as i8,
        fields.second as i8,
        fields.millisecond as i16,
    )
}

/// What can go wrong reading a date or time from text: the string lies
/// outside the ISO-8601 grammar, or its fields name no real date.
#[derive(PartialEq, Eq, Debug, Clone)]
pub enum DateError {
    Construct(Error),
    Parse(String),
}

/// What can go wrong reading an offset datetime from text.
#[derive(PartialEq, Eq, Debug, Clone)]
pub enum OffsetError {
    Construct(offset::Error),
    Parse(String),
}

impl FromStr for local::Date {
    type Err = DateError;

    fn from_str(input: &str) -> Result<Self, Self::Err> {
        match parse_iso_date(input) {
            Ok(fields) => match fields_to_date(fields) {
                Ok(date) => Ok(date),
                Err(e) => Err(DateError::Construct(e)),
            },
            Err(e) => Err(DateError::Parse(e)),
        }
    }
}

impl FromStr for local::Time {
    type Err = DateError;

    fn from_str(input: &str) -> Result<Self, Self::Err> {
        match parse_iso_time(input) {
            Ok(fields) => match fields_to_time(fields) {
                Ok(time) => Ok(time),
                Err(e) => Err(DateError::Construct(e)),
            },
            Err(e) => Err(DateError::Parse(e)),
        }
    }
}

impl FromStr for local::DateTime {
    type Err = DateError;

    fn from_str(input: &str) -> Result<Self, Self::Err> {
        let (date_fields, time_fields) = match parse_iso_datetime(input) {
            Ok(fields) => fields,
            Err(e) => { return Err(DateError::Parse(e)); },
        };
        let date = match fields_to_date(date_fields) {
            Ok(date) => date,
            Err(e) => { return Err(DateError::Construct(e)); },
        };
        let time = match fields_to_time(time_fields) {
            Ok(time) => time,
            Err(e) => { return Err(DateError::Construct(e)); },
        };
        Ok(local::DateTime::new(date, time))
    }
}

impl FromStr for offset::DateTime {
    type Err = OffsetError;

    fn from_str(input: &str) -> Result<Self, Self::Err> {
        let (date_fields, time_fields) = match parse_iso_datetime(input) {
            Ok(fields) => fields,
            Err(e) => { return Err(OffsetError::Parse(e)); },
        };
        let date = match fields_to_date(date_fields) {
            Ok(date) => date,
            Err(e) => { return Err(OffsetError::Construct(offset::Error::Date(e))); },
        };
        let time = match fields_to_time(time_fields) {
            Ok(time) => time,
            Err(e) => { return Err(OffsetError::Construct(offset::Error::Date(e))); },
        };
        if !(-23 <= time_fields.tz_offset_hours && time_fields.tz_offset_hours <= 23 && -59
            <= time_fields.tz_offset_minutes && time_fields.tz_offset_minutes <= 59) {
            return Err(
                OffsetError::Construct(
                    offset::Error::OutOfRange {
                        field: Field::Hour,
                        value: time_fields.tz_offset_hours as i64,
                        lower: -23 as i64,
                        upper: 24,
                    },
                ),
            );
        }
        let offset_value = match offset::Offset::of_hours_and_minutes(
            time_fields.tz_offset_hours as i8,
            time_fields.tz_offset_minutes as i8,
        ) {
            Ok(offset_value) => offset_value,
            Err(e) => { return Err(OffsetError::Construct(e)); },
        };
        Ok(offset_value.transform_date(local::DateTime::new(date, time)))
    }
}

} // verus!
