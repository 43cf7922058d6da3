//! The calendar's unit types: years, months, and weekdays.

use vstd::arithmetic::div_mod::{
    lemma_fundamental_div_mod, lemma_fundamental_div_mod_converse, lemma_mod_multiples_basic,
    lemma_mod_multiples_vanish,
};
use vstd::prelude::*;

use crate::util::split_cycles;

verus! {

/// Whether a year is a leap year under the Gregorian rule: divisible by
/// four, except century years, which must be divisible by four hundred.
pub open spec fn is_leap_spec(year: int) -> bool {
    year % 4 == 0 && (year % 100 != 0 || year % 400 == 0)
}

/// The number of leap days that separate the start of the given year from
/// the start of the reference year 2000, counted so that
/// `leap_years_elapsed_spec(y + 1) - leap_years_elapsed_spec(y)` is one
/// exactly when `y` is a leap year.
pub open spec fn leap_years_elapsed_spec(year: int) -> int {
    let y = year - 2000;
    y / 4 - y / 100 + y / 400 - (if is_leap_spec(year) { 1int } else { 0int })
}

/// The increment of the elapsed-leap-year count from one year to the next
/// is exactly the leap-day contribution of the earlier year.
pub proof fn lemma_leap_years_elapsed_step(year: int)
    ensures
        leap_years_elapsed_spec(year + 1) == leap_years_elapsed_spec(year)
            + (if is_leap_spec(year) { 1int } else { 0int }),
{
    let y = year - 2000;
    let z = y + 1;
    lemma_div_step(y, 4);
    lemma_div_step(y, 100);
    lemma_div_step(y, 400);
    assert(z % 4 == (year + 1) % 4) by {
        lemma_mod_multiples_vanish(500, z, 4);
    }
    assert(z % 100 == (year + 1) % 100) by {
        lemma_mod_multiples_vanish(20, z, 100);
    }
    assert(z % 400 == (year + 1) % 400) by {
        lemma_mod_multiples_vanish(5, z, 400);
    }
    lemma_divisibility_chain(year + 1);
}

/// A year divisible by 400 is divisible by 100, and one divisible by 100
/// is divisible by 4.
pub proof fn lemma_divisibility_chain(x: int)
    ensures
        x % 400 == 0 ==> x % 100 == 0,
        x % 100 == 0 ==> x % 4 == 0,
{
    if x % 400 == 0 {
        lemma_fundamental_div_mod(x, 400);
        assert(x == (4 * (x / 400)) * 100);
        lemma_mod_multiples_basic(4 * (x / 400), 100);
    }
    if x % 100 == 0 {
        lemma_fundamental_div_mod(x, 100);
        assert(x == (25 * (x / 100)) * 4);
        lemma_mod_multiples_basic(25 * (x / 100), 4);
    }
}

/// Floor division by a positive constant steps up by one exactly at the
/// multiples of the divisor.
pub proof fn lemma_div_step(x: int, d: int)
    requires
        d > 0,
    ensures
        (x + 1) / d == x / d + (if (x + 1) % d == 0 { 1int } else { 0int }),
        (x + 1) % d == (if x % d == d - 1 { 0int } else { x % d + 1 }),
{
    broadcast use vstd::arithmetic::mul::group_mul_properties;

    lemma_fundamental_div_mod(x, d);
    if x % d == d - 1 {
        lemma_fundamental_div_mod_converse(x + 1, d, x / d + 1, 0);
    } else {
        lemma_fundamental_div_mod_converse(x + 1, d, x / d, x % d + 1);
    }
}

/// A single year.
///
/// This is just a wrapper around `i64` that performs year-related tests.
#[derive(PartialEq, Eq, Structural, Debug, Clone, Copy)]
pub struct Year(pub i64);

impl Year {
    /// Returns the year after this year.
    pub fn next_year(&self) -> (r: Year)
        requires
            self.0 < i64::MAX,
        ensures
            r.0 == self.0 + 1,
    {
        Year(self.0 + 1)
    }

    /// Returns the year before this year.
    pub fn previous_year(&self) -> (r: Year)
        requires
            self.0 > i64::MIN,
        ensures
            r.0 == self.0 - 1,
    {
        Year(self.0 - 1)
    }

    /// Returns whether this year is a leap year.
    pub fn is_leap_year(&self) -> (r: bool)
        requires
            self.0 >= i64::MIN + 2000,
        ensures
            r == is_leap_spec(self.0 as int),
    {
        self.leap_year_calculations().1
    }

    /// Performs two related calculations for leap years, returning the
    /// results as a two-part tuple:
    ///
    /// 1. The number of leap years that have elapsed prior to this year,
    ///    relative to the start of the year 2000;
    /// 2. Whether this year is a leap year or not.
    pub fn leap_year_calculations(&self) -> (r: (i64, bool))
        requires
            self.0 >= i64::MIN + 2000,
        ensures
            r.0 == leap_years_elapsed_spec(self.0 as int),
            r.1 == is_leap_spec(self.0 as int),
    {
        let year: i64 = self.0 - 2000;

        // This calculation is the reverse of the day-count decomposition
        // used when a date is rebuilt from a day number.
        let (num_400y_cycles, mut remainder) = split_cycles(year, 400);

        // Standard leap-year calculations, performed on the remainder
        let currently_leap_year = remainder == 0 || (remainder % 100 != 0 && remainder % 4 == 0);

        let num_100y_cycles: i64 = remainder / 100;
        remainder -= num_100y_cycles * 100;

        let leap_years_elapsed: i64 = remainder / 4
            + 97 * num_400y_cycles  // There are 97 leap years in 400 years
            + 24 * num_100y_cycles  // There are 24 leap years in 100 years
            - if currently_leap_year { 1 } else { 0 };

        proof {
            let y = self.0 - 2000int;
            let c = num_400y_cycles as int;
            let rem = y - c * 400;
            let h = num_100y_cycles as int;
            let rem2 = remainder as int;
            let q4 = rem2 / 4;
            lemma_fundamental_div_mod(rem, 100);
            assert(rem2 == rem % 100);
            lemma_fundamental_div_mod(rem2, 4);
            let r4 = rem2 % 4;
            lemma_fundamental_div_mod_converse(y, 400, c, rem);
            lemma_fundamental_div_mod_converse(y, 100, 4 * c + h, rem2);
            lemma_fundamental_div_mod_converse(y, 4, 100 * c + 25 * h + q4, r4);
            lemma_mod_multiples_vanish(500, y, 4);
            lemma_mod_multiples_vanish(20, y, 100);
            lemma_mod_multiples_vanish(5, y, 400);
            lemma_mod_multiples_vanish(25 * h, rem2, 4);
            assert(rem % 4 == r4);
            assert(leap_years_elapsed == leap_years_elapsed_spec(self.0 as int));
        }

        (leap_years_elapsed, currently_leap_year)
    }
}

impl core::convert::From<i64> for Year {
    fn from(year: i64) -> (r: Year) {
        Year(year)
    }
}

impl vstd::std_specs::convert::FromSpecImpl<i64> for Year {
    open spec fn obeys_from_spec() -> bool {
        true
    }

    open spec fn from_spec(year: i64) -> Year {
        Year(year)
    }
}

/// A month of the year, starting with January, and ending with December.
///
/// This is stored as an enum instead of just a number to prevent
/// off-by-one errors: is month 2 February (1-indexed) or March (0-indexed)?
/// Here the named conversions `from_one` and `from_zero` make the chosen
/// indexing explicit at every boundary.
#[derive(PartialEq, Eq, Structural, Debug, Clone, Copy)]
pub enum Month {
    January,
    February,
    March,
    April,
    May,
    June,
    July,
    August,
    September,
    October,
    November,
    December,
}

impl Month {
    /// The number of months before this one in a calendar year: 0 for
    /// January up to 11 for December.
    pub open spec fn index_spec(self) -> int {
        match self {
            Month::January => 0,
            Month::February => 1,
            Month::March => 2,
            Month::April => 3,
            Month::May => 4,
            Month::June => 5,
            Month::July => 6,
            Month::August => 7,
            Month::September => 8,
            Month::October => 9,
            Month::November => 10,
            Month::December => 11,
        }
    }

    /// The number of days in this month, depending on whether the year it
    /// belongs to is a leap year.
    pub open spec fn days_spec(self, leap_year: bool) -> int {
        match self {
            Month::January => 31,
            Month::February => if leap_year { 29int } else { 28int },
            Month::March => 31,
            Month::April => 30,
            Month::May => 31,
            Month::June => 30,
            Month::July => 31,
            Month::August => 31,
            Month::September => 30,
            Month::October => 31,
            Month::November => 30,
            Month::December => 31,
        }
    }

    /// The number of days of a common (non-leap) year that pass before this
    /// month begins.
    pub open spec fn days_before_spec(self) -> int {
        match self {
            Month::January => 0,
            Month::February => 31,
            Month::March => 59,
            Month::April => 90,
            Month::May => 120,
            Month::June => 151,
            Month::July => 181,
            Month::August => 212,
            Month::September => 243,
            Month::October => 273,
            Month::November => 304,
            Month::December => 334,
        }
    }

    /// Returns the number of days in this month, depending on whether it's
    /// a leap year or not.
    pub fn days_in_month(&self, leap_year: bool) -> (r: i8)
        ensures
            r == self.days_spec(leap_year),
    {
        match *self {
            Month::January => 31,
            Month::February => if leap_year { 29 } else { 28 },
            Month::March => 31,
            Month::April => 30,
            Month::May => 31,
            Month::June => 30,
            Month::July => 31,
            Month::August => 31,
            Month::September => 30,
            Month::October => 31,
            Month::November => 30,
            Month::December => 31,
        }
    }

    /// Returns the number of days that have elapsed in a year *before* this
    /// month begins, with no leap year check.
    pub fn days_before_start(&self) -> (r: i16)
        ensures
            r == self.days_before_spec(),
    {
        match *self {
            Month::January => 0,
            Month::February => 31,
            Month::March => 59,
            Month::April => 90,
            Month::May => 120,
            Month::June => 151,
            Month::July => 181,
            Month::August => 212,
            Month::September => 243,
            Month::October => 273,
            Month::November => 304,
            Month::December => 334,
        }
    }

    /// The position of this month within a year, with January as 0.
    pub fn months_from_january(&self) -> (r: usize)
        ensures
            r == self.index_spec(),
    {
        match *self {
            Month::January => 0,
            Month::February => 1,
            Month::March => 2,
            Month::April => 3,
            Month::May => 4,
            Month::June => 5,
            Month::July => 6,
            Month::August => 7,
            Month::September => 8,
            Month::October => 9,
            Month::November => 10,
            Month::December => 11,
        }
    }

    /// Returns the month based on a number, with January as **Month 1**,
    /// February as **Month 2**, and so on.
    pub fn from_one(month: i8) -> (r: Option<Month>)
        ensures
            match r {
                Some(m) => m.index_spec() + 1 == month,
                None => month < 1 || month > 12,
            },
    {
        Some(
            match month {
                1 => Month::January,
                2 => Month::February,
                3 => Month::March,
                4 => Month::April,
                5 => Month::May,
                6 => Month::June,
                7 => Month::July,
                8 => Month::August,
                9 => Month::September,
                10 => Month::October,
                11 => Month::November,
                12 => Month::December,
                _ => { return None; },
            },
        )
    }

    /// Returns the month based on a number, with January as **Month 0**,
    /// February as **Month 1**, and so on.
    pub fn from_zero(month: i8) -> (r: Option<Month>)
        ensures
            match r {
                Some(m) => m.index_spec() == month,
                None => month < 0 || month > 11,
            },
    {
        Some(
            match month {
                0 => Month::January,
                1 => Month::February,
                2 => Month::March,
                3 => Month::April,
                4 => Month::May,
                5 => Month::June,
                6 => Month::July,
                7 => Month::August,
                8 => Month::September,
                9 => Month::October,
                10 => Month::November,
                11 => Month::December,
                _ => { return None; },
            },
        )
    }
}

/// A named day of the week.
///
/// Two numbering conventions coexist: Sunday is day 0 in the numbering
/// that falls out of the day-count arithmetic, while the ISO week-date
/// rules count Monday as day 1 up to Sunday as day 7. The conversions
/// `from_zero` and `from_one` name the two conventions explicitly.
#[derive(PartialEq, Eq, Structural, Debug, Clone, Copy)]
pub enum Weekday {
    Sunday,
    Monday,
    Tuesday,
    Wednesday,
    Thursday,
    Friday,
    Saturday,
}

impl Weekday {
    /// This weekday's number in the Sunday-first convention: Sunday is 0,
    /// Saturday is 6.
    pub open spec fn index_spec(self) -> int {
        match self {
            Weekday::Sunday => 0,
            Weekday::Monday => 1,
            Weekday::Tuesday => 2,
            Weekday::Wednesday => 3,
            Weekday::Thursday => 4,
            Weekday::Friday => 5,
            Weekday::Saturday => 6,
        }
    }

    /// This weekday's number in the ISO convention: Monday is 1, Sunday
    /// is 7.
    pub open spec fn iso_number_spec(self) -> int {
        if self == Weekday::Sunday {
            7int
        } else {
            self.index_spec()
        }
    }

    /// The ISO weekday number: Monday is 1, Sunday is 7.
    pub fn days_from_monday_as_one(&self) -> (r: i8)
        ensures
            r == self.iso_number_spec(),
    {
        match *self {
            Weekday::Sunday => 7,
            Weekday::Monday => 1,
            Weekday::Tuesday => 2,
            Weekday::Wednesday => 3,
            Weekday::Thursday => 4,
            Weekday::Friday => 5,
            Weekday::Saturday => 6,
        }
    }

    /// Return the weekday based on a number, with Sunday as Day 0, Monday
    /// as Day 1, and so on.
    pub fn from_zero(weekday: i8) -> (r: Option<Weekday>)
        ensures
            match r {
                Some(w) => w.index_spec() == weekday,
                None => weekday < 0 || weekday > 6,
            },
    {
        Some(
            match weekday {
                0 => Weekday::Sunday,
                1 => Weekday::Monday,
                2 => Weekday::Tuesday,
                3 => Weekday::Wednesday,
                4 => Weekday::Thursday,
                5 => Weekday::Friday,
                6 => Weekday::Saturday,
                _ => { return None; },
            },
        )
    }

    /// Return the weekday based on a number in the ISO convention, with
    /// Monday as Day 1 and Sunday as Day 7.
    pub fn from_one(weekday: i8) -> (r: Option<Weekday>)
        ensures
            match r {
                Some(w) => w.iso_number_spec() == weekday,
                None => weekday < 1 || weekday > 7,
            },
    {
        Some(
            match weekday {
                7 => Weekday::Sunday,
                1 => Weekday::Monday,
                2 => Weekday::Tuesday,
                3 => Weekday::Wednesday,
                4 => Weekday::Thursday,
                5 => Weekday::Friday,
                6 => Weekday::Saturday,
                _ => { return None; },
            },
        )
    }
}

/// The weekday with a given ISO number: 1 names Monday, up to 7 for
/// Sunday.
pub open spec fn weekday_from_iso_spec(number: int) -> Weekday {
    if number == 1 {
        Weekday::Monday
    } else if number == 2 {
        Weekday::Tuesday
    } else if number == 3 {
        Weekday::Wednesday
    } else if number == 4 {
        Weekday::Thursday
    } else if number == 5 {
        Weekday::Friday
    } else if number == 6 {
        Weekday::Saturday
    } else {
        Weekday::Sunday
    }
}

/// The number of days in a year: 366 in a leap year, 365 otherwise.
pub open spec fn year_length_spec(leap_year: bool) -> int {
    if leap_year { 366int } else { 365int }
}

/// Summing the days of every month of a year gives the year's length:
/// 365 days in a common year, 366 in a leap year.
pub proof fn lemma_months_cover_year(leap_year: bool)
    ensures
        Month::January.days_spec(leap_year) + Month::February.days_spec(leap_year)
            + Month::March.days_spec(leap_year) + Month::April.days_spec(leap_year)
            + Month::May.days_spec(leap_year) + Month::June.days_spec(leap_year)
            + Month::July.days_spec(leap_year) + Month::August.days_spec(leap_year)
            + Month::September.days_spec(leap_year) + Month::October.days_spec(leap_year)
            + Month::November.days_spec(leap_year) + Month::December.days_spec(leap_year)
            == year_length_spec(leap_year),
{
}

} // verus!
