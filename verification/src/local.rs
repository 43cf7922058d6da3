//! Dates, times, and datetimes, all without a time zone.

use vstd::arithmetic::div_mod::lemma_fundamental_div_mod;
use vstd::prelude::*;

use crate::compounds::YearMonthDay;
use crate::basic::{Duration, Instant};
use crate::days::{
    days_since_epoch, days_since_epoch_spec, lemma_days_since_epoch_injective,
    lemma_epoch_days_bound, lemma_year_start_step, weekday_number_spec, DaysSinceEpoch, DAY_LIMIT,
    EPOCH_DIFFERENCE, MARCH_YEAR_LIMIT, YEAR_LIMIT,
};
use crate::units::{is_leap_spec, year_length_spec, Month, Weekday, Year};
use crate::util::split_cycles;

verus! {

/// Number of seconds in a day. As everywhere in this library, leap
/// seconds are simply ignored.
pub const SECONDS_IN_DAY: i64 = 86400;

/// The field of a date or time that a validating constructor found out of
/// range.
#[derive(PartialEq, Eq, Structural, Debug, Clone, Copy)]
pub enum Field {
    Day,
    Month,
    Yearday,
    Weekday,
    Hour,
    Minute,
    Second,
    Millisecond,
}

/// The one kind of error the calendar produces: a field lay outside its
/// valid range. The range is half-open: `lower` is allowed, `upper` is
/// the first value past the end.
#[derive(PartialEq, Eq, Structural, Debug, Clone, Copy)]
pub enum Error {
    OutOfRange { field: Field, value: i64, lower: i64, upper: i64 },
}

/// A **local time** is a time on the timeline that recurs once a day,
/// *without a time zone*.
#[derive(PartialEq, Eq, Structural, Debug, Clone, Copy)]
pub struct Time {
    hour: i8,
    minute: i8,
    second: i8,
    millisecond: i16,
}

impl Time {
    /// Every field sits inside its natural bound, with one exception: the
    /// all-zero hour 24 stands for the end-of-day boundary.
    pub open spec fn wf(self) -> bool {
        &&& (0 <= self.hour_spec() < 24 || (self.hour_spec() == 24 && self.minute_spec() == 0
            && self.second_spec() == 0 && self.millisecond_spec() == 0))
        &&& 0 <= self.minute_spec() < 60
        &&& 0 <= self.second_spec() < 60
        &&& 0 <= self.millisecond_spec() < 1000
    }

    pub closed spec fn hour_spec(self) -> int {
        self.hour as int
    }

    pub closed spec fn minute_spec(self) -> int {
        self.minute as int
    }

    pub closed spec fn second_spec(self) -> int {
        self.second as int
    }

    pub closed spec fn millisecond_spec(self) -> int {
        self.millisecond as int
    }

    /// The number of seconds since midnight this time names.
    pub open spec fn seconds_spec(self) -> int {
        self.hour_spec() * 3600 + self.minute_spec() * 60 + self.second_spec()
    }

    /// Computes the number of hours, minutes, and seconds, based on the
    /// number of seconds that have elapsed since midnight.
    pub fn from_seconds_since_midnight(seconds: i64) -> (r: Time)
        requires
            0 <= seconds < 86400,
        ensures
            r.wf(),
            r.seconds_spec() == seconds,
            r.millisecond_spec() == 0,
    {
        Time::from_seconds_and_milliseconds_since_midnight(seconds, 0)
    }

    /// Computes the number of hours, minutes, and seconds, based on the
    /// number of seconds that have elapsed since midnight, together with
    /// a count of milliseconds.
    pub fn from_seconds_and_milliseconds_since_midnight(
        seconds: i64,
        millisecond_of_second: i16,
    ) -> (r: Time)
        requires
            0 <= seconds < 86400,
            0 <= millisecond_of_second < 1000,
        ensures
            r.wf(),
            r.seconds_spec() == seconds,
            r.millisecond_spec() == millisecond_of_second,
    {
        let r = Time {
            hour: (seconds / 60 / 60) as i8,
            minute: (seconds / 60 % 60) as i8,
            second: (seconds % 60) as i8,
            millisecond: millisecond_of_second,
        };
        proof {
            lemma_fundamental_div_mod(seconds as int, 60);
            lemma_fundamental_div_mod(seconds as int / 60, 60);
        }
        r
    }

    /// Returns the time at midnight, with all fields initialised to 0.
    pub fn midnight() -> (r: Time)
        ensures
            r.wf(),
            r.seconds_spec() == 0,
            r.millisecond_spec() == 0,
            r.hour_spec() == 0,
    {
        Time { hour: 0, minute: 0, second: 0, millisecond: 0 }
    }

    /// Creates a new timestamp instance with the given hour and minute
    /// fields. The second and millisecond fields are set to 0.
    ///
    /// The values are checked for validity before instantiation, and
    /// passing in values out of range will return an `Err`.
    pub fn hm(hour: i8, minute: i8) -> (r: Result<Time, Error>)
        ensures
            (0 <= hour < 24 && 0 <= minute < 60) || (hour == 24 && minute == 0) ==> (r matches Ok(
                t,
            ) && t.wf() && t.hour_spec() == hour && t.minute_spec() == minute && t.second_spec()
                == 0 && t.millisecond_spec() == 0),
            !(0 <= hour < 24) && !(hour == 24 && minute == 0) ==> r == Err::<Time, Error>(
                Error::OutOfRange { field: Field::Hour, value: hour as i64, lower: 0, upper: 24 },
            ),
            0 <= hour < 24 && !(0 <= minute < 60) ==> r == Err::<Time, Error>(
                Error::OutOfRange {
                    field: Field::Minute,
                    value: minute as i64,
                    lower: 0,
                    upper: 60,
                },
            ),
    {
        if hour == 24 && minute == 0 {
            return Ok(Time { hour, minute, second: 0, millisecond: 0 });
        }

        if !(0 <= hour && hour < 24) {
            return Err(
                Error::OutOfRange { field: Field::Hour, value: hour as i64, lower: 0, upper: 24 },
            );
        }
        if !(0 <= minute && minute < 60) {
            return Err(
                Error::OutOfRange {
                    field: Field::Minute,
                    value: minute as i64,
                    lower: 0,
                    upper: 60,
                },
            );
        }
        Ok(Time { hour, minute, second: 0, millisecond: 0 })
    }

    /// Creates a new timestamp instance with the given hour, minute, and
    /// second fields. The millisecond field is set to 0.
    ///
    /// The values are checked for validity before instantiation, and
    /// passing in values out of range will return an `Err`.
    pub fn hms(hour: i8, minute: i8, second: i8) -> (r: Result<Time, Error>)
        ensures
            (0 <= hour < 24 && 0 <= minute < 60 && 0 <= second < 60) || (hour == 24 && minute == 0
                && second == 0) ==> (r matches Ok(t) && t.wf() && t.hour_spec() == hour
                && t.minute_spec() == minute && t.second_spec() == second && t.millisecond_spec()
                == 0),
            !(0 <= hour < 24) && !(hour == 24 && minute == 0 && second == 0) ==> r == Err::<
                Time,
                Error,
            >(Error::OutOfRange { field: Field::Hour, value: hour as i64, lower: 0, upper: 24 }),
            0 <= hour < 24 && !(0 <= minute < 60) ==> r == Err::<Time, Error>(
                Error::OutOfRange {
                    field: Field::Minute,
                    value: minute as i64,
                    lower: 0,
                    upper: 60,
                },
            ),
            0 <= hour < 24 && 0 <= minute < 60 && !(0 <= second < 60) ==> r == Err::<Time, Error>(
                Error::OutOfRange {
                    field: Field::Second,
                    value: second as i64,
                    lower: 0,
                    upper: 60,
                },
            ),
    {
        if hour == 24 && minute == 0 && second == 0 {
            return Ok(Time { hour, minute, second, millisecond: 0 });
        }

        if !(0 <= hour && hour < 24) {
            return Err(
                Error::OutOfRange { field: Field::Hour, value: hour as i64, lower: 0, upper: 24 },
            );
        }
        if !(0 <= minute && minute < 60) {
            return Err(
                Error::OutOfRange {
                    field: Field::Minute,
                    value: minute as i64,
                    lower: 0,
                    upper: 60,
                },
            );
        }
        if !(0 <= second && second < 60) {
            return Err(
                Error::OutOfRange {
                    field: Field::Second,
                    value: second as i64,
                    lower: 0,
                    upper: 60,
                },
            );
        }
        Ok(Time { hour, minute, second, millisecond: 0 })
    }

    /// Creates a new timestamp instance with the given hour, minute,
    /// second, and millisecond fields.
    ///
    /// The values are checked for validity before instantiation, and
    /// passing in values out of range will return an `Err`. The all-zero
    /// hour 24 form is permitted as the end-of-day boundary.
    pub fn hms_ms(hour: i8, minute: i8, second: i8, millisecond: i16) -> (r: Result<Time, Error>)
        ensures
            (0 <= hour < 24 && 0 <= minute < 60 && 0 <= second < 60 && 0 <= millisecond < 1000)
                || (hour == 24 && minute == 0 && second == 0 && millisecond == 0) ==> (r matches Ok(
                t,
            ) && t.wf() && t.hour_spec() == hour && t.minute_spec() == minute && t.second_spec()
                == second && t.millisecond_spec() == millisecond),
            !(0 <= hour < 24) && !(hour == 24 && minute == 0 && second == 0 && millisecond == 0)
                ==> r == Err::<Time, Error>(
                Error::OutOfRange { field: Field::Hour, value: hour as i64, lower: 0, upper: 24 },
            ),
            0 <= hour < 24 && !(0 <= minute < 60) ==> r == Err::<Time, Error>(
                Error::OutOfRange {
                    field: Field::Minute,
                    value: minute as i64,
                    lower: 0,
                    upper: 60,
                },
            ),
            0 <= hour < 24 && 0 <= minute < 60 && !(0 <= second < 60) ==> r == Err::<Time, Error>(
                Error::OutOfRange {
                    field: Field::Second,
                    value: second as i64,
                    lower: 0,
                    upper: 60,
                },
            ),
            0 <= hour < 24 && 0 <= minute < 60 && 0 <= second < 60 && !(0 <= millisecond < 1000)
                ==> r == Err::<Time, Error>(
                Error::OutOfRange {
                    field: Field::Millisecond,
                    value: millisecond as i64,
                    lower: 0,
                    upper: 1000,
                },
            ),
    {
        if hour == 24 && minute == 0 && second == 0 && millisecond == 0 {
            return Ok(Time { hour, minute, second, millisecond });
        }

        if !(0 <= hour && hour < 24) {
            return Err(
                Error::OutOfRange { field: Field::Hour, value: hour as i64, lower: 0, upper: 24 },
            );
        }
        if !(0 <= minute && minute < 60) {
            return Err(
                Error::OutOfRange {
                    field: Field::Minute,
                    value: minute as i64,
                    lower: 0,
                    upper: 60,
                },
            );
        }
        if !(0 <= second && second < 60) {
            return Err(
                Error::OutOfRange {
                    field: Field::Second,
                    value: second as i64,
                    lower: 0,
                    upper: 60,
                },
            );
        }
        if !(0 <= millisecond && millisecond < 1000) {
            return Err(
                Error::OutOfRange {
                    field: Field::Millisecond,
                    value: millisecond as i64,
                    lower: 0,
                    upper: 1000,
                },
            );
        }
        Ok(Time { hour, minute, second, millisecond })
    }

    /// Calculate the number of seconds since midnight this time is at,
    /// ignoring milliseconds.
    pub fn to_seconds(&self) -> (r: i64)
        requires
            self.wf(),
        ensures
            r == self.seconds_spec(),
    {
        self.hour as i64 * 3600 + self.minute as i64 * 60 + self.second as i64
    }

    pub fn hour(&self) -> (r: i8)
        ensures
            r == self.hour_spec(),
    {
        self.hour
    }

    pub fn minute(&self) -> (r: i8)
        ensures
            r == self.minute_spec(),
    {
        self.minute
    }

    pub fn second(&self) -> (r: i8)
        ensures
            r == self.second_spec(),
    {
        self.second
    }

    pub fn millisecond(&self) -> (r: i16)
        ensures
            r == self.millisecond_spec(),
    {
        self.millisecond
    }
}

/// The correction the ISO week-date rules apply for the given year: the
/// ISO weekday number of the 4th of January, plus three.
pub open spec fn week_one_correction_spec(year: int) -> int {
    let n = weekday_number_spec(days_since_epoch_spec(year, Month::January, 4));
    (if n == 0 {
        7int
    } else {
        n
    }) + 3
}

/// Everything `Date::ywd` promises of its result: the ISO week-date
/// arithmetic fixes a signed day-of-year `n`, and the result is the date
/// that many days past the eve of the 1st of January, landing on the
/// asked-for weekday, or the exact out-of-range error when `n` escapes
/// the three reachable years.
pub open spec fn ywd_result_spec(year: int, week: int, weekday: Weekday, r: Result<
    Date,
    Error,
>) -> bool {
    let n = 7 * week + weekday.iso_number_spec() - week_one_correction_spec(year);
    let len_prev = year_length_spec(is_leap_spec(year - 1));
    let len_cur = year_length_spec(is_leap_spec(year));
    let len_next = year_length_spec(is_leap_spec(year + 1));
    &&& (-len_prev <= n <= len_cur + len_next ==> (r matches Ok(d) && d.wf()
        && d.epoch_days_spec() == days_since_epoch_spec(year, Month::January, 1) + n - 1
        && d.weekday_spec() == weekday))
    &&& (n < -len_prev ==> r == Err::<Date, Error>(
        Error::OutOfRange {
            field: Field::Yearday,
            value: (len_prev + n) as i64,
            lower: 0,
            upper: (len_prev + 1) as i64,
        },
    ))
    &&& (n > len_cur + len_next ==> r == Err::<Date, Error>(
        Error::OutOfRange {
            field: Field::Yearday,
            value: (n - len_cur) as i64,
            lower: 0,
            upper: (len_next + 1) as i64,
        },
    ))
}

/// A date built from a week number and a weekday lands on that weekday:
/// its distance from the 4th of January is a whole number of weeks plus
/// the difference of the two ISO weekday numbers.
proof fn lemma_requested_weekday_comes_back(year: int, week: int, weekday: Weekday, d: Date)
    requires
        d.wf(),
        d.epoch_days_spec() == days_since_epoch_spec(year, Month::January, 1) + 7 * week
            + weekday.iso_number_spec() - week_one_correction_spec(year) - 1,
    ensures
        d.weekday_spec() == weekday,
{
    let jan_4 = days_since_epoch_spec(year, Month::January, 4);
    let j4 = weekday_number_spec(jan_4);
    lemma_fundamental_div_mod(jan_4 + 4, 7);
    // Peel the ISO numbering back to the Sunday-based one: the two differ
    // by seven exactly on Sundays.
    let iso_slack: int = if j4 == 0 {
        1
    } else {
        0
    };
    let target_slack: int = if weekday == Weekday::Sunday {
        1
    } else {
        0
    };
    let quotient = (jan_4 + 4) / 7 + week - 1 - iso_slack + target_slack;
    lemma_fundamental_div_mod_converse_pair(
        d.epoch_days_spec() + 4,
        7,
        quotient,
        weekday.index_spec(),
    );
    lemma_weekday_determined_by_index(d.weekday_spec(), weekday);
}

/// A **local date** is a day-long span on the timeline, *without a time
/// zone*.
///
/// The day-of-year and weekday are derived from the day count when the
/// date is built and stored alongside the calendar fields, so the lookups
/// cost nothing; `wf` says the stored values agree with the fields.
#[derive(Debug, Clone, Copy)]
pub struct Date {
    ymd: YearMonthDay,
    yearday: i16,
    weekday: Weekday,
}

impl Date {
    /// The calendar fields name a real day in the supported year span,
    /// and the cached day-of-year and weekday are exactly what re-deriving
    /// them from the day count would give.
    pub open spec fn wf(self) -> bool {
        &&& crate::days::ymd_fields_valid_spec(self.year_spec(), self.month_spec(), self.day_spec())
        &&& -MARCH_YEAR_LIMIT + 1999 <= self.year_spec() <= MARCH_YEAR_LIMIT + 2001
        &&& self.yearday_spec() == self.epoch_days_spec() - days_since_epoch_spec(
            self.year_spec(),
            Month::January,
            1,
        ) + 1
        &&& self.weekday_spec().index_spec() == weekday_number_spec(self.epoch_days_spec())
    }

    /// The day count of this date, from the 1st of January, 1970.
    pub open spec fn epoch_days_spec(self) -> int {
        days_since_epoch_spec(self.year_spec(), self.month_spec(), self.day_spec())
    }

    pub closed spec fn year_spec(self) -> int {
        self.ymd.year.0 as int
    }

    pub closed spec fn month_spec(self) -> Month {
        self.ymd.month
    }

    pub closed spec fn day_spec(self) -> int {
        self.ymd.day as int
    }

    pub closed spec fn yearday_spec(self) -> int {
        self.yearday as int
    }

    pub closed spec fn weekday_spec(self) -> Weekday {
        self.weekday
    }

    /// The calendar triple of this date.
    pub closed spec fn ymd_spec(self) -> YearMonthDay {
        self.ymd
    }

    /// Creates a new local date instance from the given year, month, and
    /// day fields.
    ///
    /// The values are checked for validity before instantiation, and
    /// passing in values out of range will return an error: the day must
    /// fit inside the month, whose length follows the year's leapness.
    pub fn ymd(year: i64, month: Month, day: i8) -> (r: Result<Date, Error>)
        requires
            -YEAR_LIMIT <= year <= YEAR_LIMIT,
        ensures
            1 <= day <= month.days_spec(is_leap_spec(year as int)) ==> (r matches Ok(d) && d.wf()
                && d.year_spec() == year && d.month_spec() == month && d.day_spec() == day),
            !(1 <= day <= month.days_spec(is_leap_spec(year as int))) ==> r == Err::<Date, Error>(
                Error::OutOfRange {
                    field: Field::Day,
                    value: day as i64,
                    lower: 1,
                    upper: (month.days_spec(is_leap_spec(year as int)) + 1) as i64,
                },
            ),
    {
        // 'day' is the only field that needs validating first.
        let year = Year(year);
        let month_length = month.days_in_month(year.is_leap_year());
        if !(1 <= day && day <= month_length) {
            return Err(
                Error::OutOfRange {
                    field: Field::Day,
                    value: day as i64,
                    lower: 1,
                    upper: month_length as i64 + 1,
                },
            );
        }

        let ymd = YearMonthDay { year, month, day };
        let days = days_since_epoch(ymd);
        proof {
            lemma_epoch_days_bound(year.0 as int, month, day as int);
        }

        let date = Date::from_days_since_epoch(days - EPOCH_DIFFERENCE);
        proof {
            lemma_days_since_epoch_injective(
                year.0 as int,
                month,
                day as int,
                date.ymd.year.0 as int,
                date.ymd.month,
                date.ymd.day as int,
            );
        }
        Ok(date)
    }

    /// Creates a new local date instance from the given year and
    /// day-of-year values.
    ///
    /// The day-of-year is checked against the length of the year before
    /// instantiation; a value out of range returns an error. The count is
    /// 1-based, and the value 0 is accepted as the day before the 1st of
    /// January.
    pub fn yd(year: i64, yearday: i64) -> (r: Result<Date, Error>)
        requires
            -YEAR_LIMIT + 1 <= year <= YEAR_LIMIT - 1,
        ensures
            0 <= yearday <= year_length_spec(is_leap_spec(year as int)) ==> (r matches Ok(d)
                && d.wf() && d.epoch_days_spec() == days_since_epoch_spec(
                year as int,
                Month::January,
                1,
            ) + yearday - 1),
            1 <= yearday <= year_length_spec(is_leap_spec(year as int)) ==> (r matches Ok(d)
                && d.year_spec() == year && d.yearday_spec() == yearday),
            !(0 <= yearday <= year_length_spec(is_leap_spec(year as int))) ==> r == Err::<
                Date,
                Error,
            >(Error::OutOfRange {
                field: Field::Yearday,
                value: yearday,
                lower: 0,
                upper: (year_length_spec(is_leap_spec(year as int)) + 1) as i64,
            }),
    {
        let year = Year(year);
        let days_in_year: i64 = if year.is_leap_year() {
            367
        } else {
            366
        };
        if !(0 <= yearday && yearday < days_in_year) {
            return Err(
                Error::OutOfRange {
                    field: Field::Yearday,
                    value: yearday,
                    lower: 0,
                    upper: days_in_year,
                },
            );
        }

        let jan_1 = YearMonthDay { year, month: Month::January, day: 1 };
        let days = days_since_epoch(jan_1);
        proof {
            lemma_epoch_days_bound(year.0 as int, Month::January, 1);
        }
        let date = Date::from_days_since_epoch(days + yearday - 1 - EPOCH_DIFFERENCE);
        proof {
            if 1 <= yearday {
                crate::days::lemma_day_count_locates_year(
                    year.0 as int,
                    yearday - 1,
                    date.year_spec(),
                    date.month_spec(),
                    date.day_spec(),
                );
            }
        }
        Ok(date)
    }

    /// Creates a new local date instance from the given year,
    /// week-of-year, and weekday values, following the ISO-8601 week
    /// rules: week 1 is the week containing the 4th of January.
    ///
    /// The values are checked for validity before instantiation, and
    /// passing in values out of range will return an error. A date early
    /// in week 1 or late in week 53 can fall in the neighbouring calendar
    /// year.
    pub fn ywd(year: i64, week: i64, weekday: Weekday) -> (r: Result<Date, Error>)
        requires
            -YEAR_LIMIT + 2 <= year <= YEAR_LIMIT - 2,
            -1_000_000_000_000_000_000 <= week <= 1_000_000_000_000_000_000,
        ensures
            ywd_result_spec(year as int, week as int, weekday, r),
    {
        let year = Year(year);

        let jan_4 = YearMonthDay { year, month: Month::January, day: 4 };
        let days = days_since_epoch(jan_4);
        proof {
            lemma_epoch_days_bound(year.0 as int, Month::January, 4);
        }
        let correction = DaysSinceEpoch::new(days).weekday().days_from_monday_as_one() as i64 + 3;

        let yearday = 7 * week + weekday.days_from_monday_as_one() as i64 - correction;

        proof {
            lemma_year_start_step(year.0 - 1);
            lemma_year_start_step(year.0 as int);
        }

        let result = if yearday <= 0 {
            let days_in_year: i64 = if year.previous_year().is_leap_year() {
                366
            } else {
                365
            };
            Date::yd(year.0 - 1, days_in_year + yearday)
        } else {
            let days_in_year: i64 = if year.is_leap_year() {
                366
            } else {
                365
            };

            if yearday >= days_in_year {
                Date::yd(year.next_year().0, yearday - days_in_year)
            } else {
                Date::yd(year.0, yearday)
            }
        };

        proof {
            match result {
                Ok(d) => lemma_requested_weekday_comes_back(year.0 as int, week as int, weekday, d),
                Err(_) => (),
            }
        }
        result
    }

    /// Computes a Date - year, month, day, weekday, and yearday - given
    /// the number of days that have passed since the internal epoch, the
    /// 1st of March, 2000.
    ///
    /// This is used by all the other constructor functions.
    pub fn from_days_since_epoch(days: i64) -> (r: Date)
        requires
            -DAY_LIMIT <= days <= DAY_LIMIT,
        ensures
            r.wf(),
            r.epoch_days_spec() == days + EPOCH_DIFFERENCE,
    {
        let day_count = DaysSinceEpoch::of_march_days(days);
        let exact = day_count.to_yd();
        let yearday = exact.yearday();
        let ymd = exact.ymd();
        let weekday = day_count.weekday();

        Date { ymd, yearday, weekday }
    }

    /// The calendar triple of this date.
    pub fn ymd_val(&self) -> (r: YearMonthDay)
        ensures
            r == self.ymd_spec(),
    {
        self.ymd
    }

    pub fn year(&self) -> (r: Year)
        ensures
            r.0 == self.year_spec(),
    {
        self.ymd.year
    }

    pub fn month(&self) -> (r: Month)
        ensures
            r == self.month_spec(),
    {
        self.ymd.month
    }

    pub fn day(&self) -> (r: i8)
        ensures
            r == self.day_spec(),
    {
        self.ymd.day
    }

    pub fn yearday(&self) -> (r: i16)
        ensures
            r == self.yearday_spec(),
    {
        self.yearday
    }

    pub fn weekday(&self) -> (r: Weekday)
        ensures
            r == self.weekday_spec(),
    {
        self.weekday
    }
}

/// Dates compare by their calendar fields alone: the cached day-of-year
/// and weekday carry no further information.
impl PartialEq for Date {
    fn eq(&self, other: &Date) -> (r: bool) {
        self.ymd == other.ymd
    }
}

impl vstd::std_specs::cmp::PartialEqSpecImpl for Date {
    open spec fn obeys_eq_spec() -> bool {
        true
    }

    closed spec fn eq_spec(&self, other: &Date) -> bool {
        self.ymd == other.ymd
    }
}

/// Dates order by their calendar fields, year first, then month, then
/// day: exactly the order of the days they name.
impl PartialOrd for Date {
    fn partial_cmp(&self, other: &Date) -> (r: Option<core::cmp::Ordering>) {
        let my_month: usize = self.ymd.month.months_from_january();
        let other_month: usize = other.ymd.month.months_from_january();
        if self.ymd.year.0 < other.ymd.year.0 {
            Some(core::cmp::Ordering::Less)
        } else if self.ymd.year.0 > other.ymd.year.0 {
            Some(core::cmp::Ordering::Greater)
        } else if my_month < other_month {
            Some(core::cmp::Ordering::Less)
        } else if my_month > other_month {
            Some(core::cmp::Ordering::Greater)
        } else if self.ymd.day < other.ymd.day {
            Some(core::cmp::Ordering::Less)
        } else if self.ymd.day > other.ymd.day {
            Some(core::cmp::Ordering::Greater)
        } else {
            Some(core::cmp::Ordering::Equal)
        }
    }
}

impl vstd::std_specs::cmp::PartialOrdSpecImpl for Date {
    open spec fn obeys_partial_cmp_spec() -> bool {
        true
    }

    open spec fn partial_cmp_spec(&self, other: &Date) -> Option<core::cmp::Ordering> {
        if crate::days::ymd_before_spec(
            self.year_spec(),
            self.month_spec(),
            self.day_spec(),
            other.year_spec(),
            other.month_spec(),
            other.day_spec(),
        ) {
            Some(core::cmp::Ordering::Less)
        } else if crate::days::ymd_before_spec(
            other.year_spec(),
            other.month_spec(),
            other.day_spec(),
            self.year_spec(),
            self.month_spec(),
            self.day_spec(),
        ) {
            Some(core::cmp::Ordering::Greater)
        } else {
            Some(core::cmp::Ordering::Equal)
        }
    }
}

/// A **local date-time** is an exact instant on the timeline, *without a
/// time zone*.
#[derive(PartialEq, Debug, Clone, Copy)]
pub struct DateTime {
    date: Date,
    time: Time,
}

impl DateTime {
    pub open spec fn wf(self) -> bool {
        self.date_spec().wf() && self.time_spec().wf()
    }

    pub closed spec fn date_spec(self) -> Date {
        self.date
    }

    pub closed spec fn time_spec(self) -> Time {
        self.time
    }

    /// The number of seconds between the Unix epoch and this date-time;
    /// the millisecond field rides along separately.
    pub open spec fn instant_seconds_spec(self) -> int {
        self.date_spec().epoch_days_spec() * 86400 + self.time_spec().seconds_spec()
    }

    /// Creates a new local date time from a local date and a local time.
    pub fn new(date: Date, time: Time) -> (r: DateTime)
        ensures
            r.date_spec() == date,
            r.time_spec() == time,
    {
        DateTime { date, time }
    }

    /// Returns the date portion of this date-time stamp.
    pub fn date(&self) -> (r: Date)
        ensures
            r == self.date_spec(),
    {
        self.date
    }

    /// Returns the time portion of this date-time stamp.
    pub fn time(&self) -> (r: Time)
        ensures
            r == self.time_spec(),
    {
        self.time
    }

    /// Computes a complete date-time based on the values in the given
    /// Instant parameter.
    pub fn from_instant(instant: Instant) -> (r: DateTime)
        requires
            instant.wf(),
            instant.seconds_spec() - EPOCH_DIFFERENCE * SECONDS_IN_DAY >= i64::MIN,
        ensures
            r.wf(),
            r.instant_seconds_spec() == instant.seconds_spec(),
            r.time_spec().millisecond_spec() == instant.milliseconds_spec(),
    {
        DateTime::at_ms(instant.seconds(), instant.milliseconds())
    }

    /// Computes a complete date-time based on the number of seconds that
    /// have elapsed since **midnight, 1st January, 1970**, setting the
    /// number of milliseconds to 0.
    pub fn at(seconds_since_1970_epoch: i64) -> (r: DateTime)
        requires
            seconds_since_1970_epoch - EPOCH_DIFFERENCE * SECONDS_IN_DAY >= i64::MIN,
        ensures
            r.wf(),
            r.instant_seconds_spec() == seconds_since_1970_epoch,
            r.time_spec().millisecond_spec() == 0,
    {
        DateTime::at_ms(seconds_since_1970_epoch, 0)
    }

    /// Computes a complete date-time based on the number of seconds that
    /// have elapsed since **midnight, 1st January, 1970**.
    pub fn at_ms(seconds_since_1970_epoch: i64, millisecond_of_second: i16) -> (r: DateTime)
        requires
            0 <= millisecond_of_second < 1000,
            seconds_since_1970_epoch - EPOCH_DIFFERENCE * SECONDS_IN_DAY >= i64::MIN,
        ensures
            r.wf(),
            r.instant_seconds_spec() == seconds_since_1970_epoch,
            r.time_spec().millisecond_spec() == millisecond_of_second,
    {
        let seconds = seconds_since_1970_epoch - EPOCH_DIFFERENCE * SECONDS_IN_DAY;

        // Just split the input value into days and seconds, and let
        // Date and Time do all the hard work.
        let (days, secs) = split_cycles(seconds, SECONDS_IN_DAY);
        assert(days * 86400 + secs == seconds && -DAY_LIMIT <= days <= DAY_LIMIT) by (
        nonlinear_arith)
            requires
                seconds == days * SECONDS_IN_DAY + secs,
                SECONDS_IN_DAY == 86400,
                0 <= secs < SECONDS_IN_DAY,
                i64::MIN <= seconds <= i64::MAX,
                DAY_LIMIT == 366_000_000_000_000,
        ;

        let date = Date::from_days_since_epoch(days);
        let time = Time::from_seconds_and_milliseconds_since_midnight(
            secs,
            millisecond_of_second,
        );

        assert((days + EPOCH_DIFFERENCE) * 86400 == days * 86400 + EPOCH_DIFFERENCE * 86400) by (
        nonlinear_arith);

        DateTime::new(date, time)
    }

    /// The instant this date-time names: its distance from midnight, 1st
    /// January, 1970.
    pub fn to_instant(&self) -> (r: Instant)
        requires
            self.wf(),
            i64::MIN <= self.date_spec().epoch_days_spec() * 86400,
            self.instant_seconds_spec() <= i64::MAX,
        ensures
            r.wf(),
            r.seconds_spec() == self.instant_seconds_spec(),
            r.milliseconds_spec() == self.time_spec().millisecond_spec(),
    {
        // It's easier to do this algorithm in two steps than one: we work
        // out the number of seconds in the days since the Unix epoch, then
        // the number of seconds that have elapsed since midnight, and add
        // them together.
        let days = days_since_epoch(self.date.ymd_val());
        let seconds_since_unix_epoch = days * SECONDS_IN_DAY;
        let seconds = seconds_since_unix_epoch + self.time.to_seconds();

        Instant::at_ms(seconds, self.time.millisecond())
    }

    /// Moves this date-time by a whole number of seconds, in either
    /// direction.
    pub fn add_seconds(&self, seconds: i64) -> (r: DateTime)
        requires
            self.wf(),
            i64::MIN <= self.date_spec().epoch_days_spec() * 86400,
            self.instant_seconds_spec() <= i64::MAX,
            i64::MIN + EPOCH_DIFFERENCE * SECONDS_IN_DAY <= self.instant_seconds_spec() + seconds
                <= i64::MAX,
        ensures
            r.wf(),
            r.instant_seconds_spec() == self.instant_seconds_spec() + seconds,
            r.time_spec().millisecond_spec() == self.time_spec().millisecond_spec(),
    {
        let instant = self.to_instant();
        DateTime::at_ms(instant.seconds() + seconds, instant.milliseconds())
    }

    pub fn year(&self) -> (r: Year)
        ensures
            r.0 == self.date_spec().year_spec(),
    {
        self.date.year()
    }

    pub fn month(&self) -> (r: Month)
        ensures
            r == self.date_spec().month_spec(),
    {
        self.date.month()
    }

    pub fn day(&self) -> (r: i8)
        ensures
            r == self.date_spec().day_spec(),
    {
        self.date.day()
    }

    pub fn yearday(&self) -> (r: i16)
        ensures
            r == self.date_spec().yearday_spec(),
    {
        self.date.yearday()
    }

    pub fn weekday(&self) -> (r: Weekday)
        ensures
            r == self.date_spec().weekday_spec(),
    {
        self.date.weekday()
    }

    pub fn hour(&self) -> (r: i8)
        ensures
            r == self.time_spec().hour_spec(),
    {
        self.time.hour()
    }

    pub fn minute(&self) -> (r: i8)
        ensures
            r == self.time_spec().minute_spec(),
    {
        self.time.minute()
    }

    pub fn second(&self) -> (r: i8)
        ensures
            r == self.time_spec().second_spec(),
    {
        self.time.second()
    }

    pub fn millisecond(&self) -> (r: i16)
        ensures
            r == self.time_spec().millisecond_spec(),
    {
        self.time.millisecond()
    }
}

/// A date-time is pinned down by its instant. Together with the
/// contracts of `DateTime::at_ms` and `DateTime::to_instant` this is the
/// round-trip law: converting a date-time to its instant and back
/// reproduces it exactly. The hour-24 boundary form is left out, since it
/// names the same instant as midnight of the following day.
pub proof fn lemma_datetime_from_instant_unique(a: DateTime, b: DateTime)
    requires
        a.wf(),
        b.wf(),
        a.time_spec().hour_spec() < 24,
        b.time_spec().hour_spec() < 24,
        a.instant_seconds_spec() == b.instant_seconds_spec(),
        a.time_spec().millisecond_spec() == b.time_spec().millisecond_spec(),
    ensures
        a == b,
{
    let a_days = a.date_spec().epoch_days_spec();
    let b_days = b.date_spec().epoch_days_spec();
    let a_tod = a.time_spec().seconds_spec();
    let b_tod = b.time_spec().seconds_spec();
    lemma_fundamental_div_mod_converse_pair(a.instant_seconds_spec(), 86400, a_days, a_tod);
    lemma_fundamental_div_mod_converse_pair(b.instant_seconds_spec(), 86400, b_days, b_tod);
    lemma_days_since_epoch_injective(
        a.date_spec().year_spec(),
        a.date_spec().month_spec(),
        a.date_spec().day_spec(),
        b.date_spec().year_spec(),
        b.date_spec().month_spec(),
        b.date_spec().day_spec(),
    );
    lemma_weekday_determined_by_index(a.date_spec().weekday_spec(), b.date_spec().weekday_spec());
    lemma_fundamental_div_mod_converse_pair(
        a_tod,
        3600,
        a.time_spec().hour_spec(),
        a.time_spec().minute_spec() * 60 + a.time_spec().second_spec(),
    );
    lemma_fundamental_div_mod_converse_pair(
        b_tod,
        3600,
        b.time_spec().hour_spec(),
        b.time_spec().minute_spec() * 60 + b.time_spec().second_spec(),
    );
    lemma_fundamental_div_mod_converse_pair(
        a_tod % 3600,
        60,
        a.time_spec().minute_spec(),
        a.time_spec().second_spec(),
    );
    lemma_fundamental_div_mod_converse_pair(
        b_tod % 3600,
        60,
        b.time_spec().minute_spec(),
        b.time_spec().second_spec(),
    );
}

/// Both halves of the converse of the fundamental division property, for
/// reading a quotient-remainder pair off a sum.
proof fn lemma_fundamental_div_mod_converse_pair(x: int, d: int, q: int, r: int)
    requires
        d > 0,
        0 <= r < d,
        x == q * d + r,
    ensures
        q == x / d,
        r == x % d,
{
    vstd::arithmetic::div_mod::lemma_fundamental_div_mod_converse(x, d, q, r);
}

/// Two weekdays with one Sunday-based number are the same weekday.
proof fn lemma_weekday_determined_by_index(a: Weekday, b: Weekday)
    requires
        a.index_spec() == b.index_spec(),
    ensures
        a == b,
{
}

impl core::ops::Add<Duration> for DateTime {
    type Output = DateTime;

    /// Moves the date-time later by the duration.
    fn add(self, duration: Duration) -> (r: DateTime)
        ensures
            r.wf(),
            r.instant_seconds_spec() == self.instant_seconds_spec() + duration.seconds_spec() + (
            if self.time_spec().millisecond_spec() + duration.milliseconds_spec() >= 1000 {
                1int
            } else {
                0int
            }),
    {
        DateTime::from_instant(self.to_instant() + duration)
    }
}

impl vstd::std_specs::ops::AddSpecImpl<Duration> for DateTime {
    open spec fn obeys_add_spec() -> bool {
        false
    }

    open spec fn add_req(self, rhs: Duration) -> bool {
        &&& self.wf()
        &&& rhs.wf()
        &&& i64::MIN <= self.date_spec().epoch_days_spec() * 86400
        &&& self.instant_seconds_spec() <= i64::MAX
        &&& i64::MIN <= self.instant_seconds_spec() + rhs.seconds_spec()
        &&& self.instant_seconds_spec() + rhs.seconds_spec() + 1 <= i64::MAX
        &&& self.instant_seconds_spec() + rhs.seconds_spec() - EPOCH_DIFFERENCE * SECONDS_IN_DAY
            >= i64::MIN + 1
    }

    open spec fn add_spec(self, rhs: Duration) -> DateTime {
        self
    }
}

impl core::ops::Sub<Duration> for DateTime {
    type Output = DateTime;

    /// Moves the date-time earlier by the duration.
    fn sub(self, duration: Duration) -> (r: DateTime)
        ensures
            r.wf(),
            r.instant_seconds_spec() == self.instant_seconds_spec() - duration.seconds_spec() - (
            if self.time_spec().millisecond_spec() - duration.milliseconds_spec() < 0 {
                1int
            } else {
                0int
            }),
    {
        DateTime::from_instant(self.to_instant() - duration)
    }
}

impl vstd::std_specs::ops::SubSpecImpl<Duration> for DateTime {
    open spec fn obeys_sub_spec() -> bool {
        false
    }

    open spec fn sub_req(self, rhs: Duration) -> bool {
        &&& self.wf()
        &&& rhs.wf()
        &&& i64::MIN <= self.date_spec().epoch_days_spec() * 86400
        &&& self.instant_seconds_spec() <= i64::MAX
        &&& i64::MIN <= self.instant_seconds_spec() - rhs.seconds_spec() - 1
        &&& self.instant_seconds_spec() - rhs.seconds_spec() <= i64::MAX
        &&& self.instant_seconds_spec() - rhs.seconds_spec() - EPOCH_DIFFERENCE * SECONDS_IN_DAY
            >= i64::MIN + 1
    }

    open spec fn sub_spec(self, rhs: Duration) -> DateTime {
        self
    }
}

} // verus!
