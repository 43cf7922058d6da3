//! The day-count engine: the bidirectional mapping between a signed count
//! of days and calendar dates.
//!
//! A day count of zero names the 1st of January, 1970. Internally the
//! engine re-bases everything onto the 1st of March, 2000: a year that is
//! a multiple of 400, and a month placed just after the leap day, so that
//! every 4-, 100-, and 400-year cycle boundary lines up with a cycle
//! boundary in the day count and February the 29th always falls at the
//! very end of a cycle.

use vstd::arithmetic::div_mod::{
    lemma_fundamental_div_mod, lemma_fundamental_div_mod_converse, lemma_mod_multiples_vanish,
};
use vstd::prelude::*;

use crate::compounds::YearMonthDay;
use crate::units::{
    is_leap_spec, lemma_leap_years_elapsed_step, leap_years_elapsed_spec, year_length_spec, Month,
    Weekday, Year,
};
use crate::util::split_cycles;

verus! {

/// Number of days guaranteed to be in four years.
pub const DAYS_IN_4Y: i64 = 365 * 4 + 1;

/// Number of days guaranteed to be in a hundred years.
pub const DAYS_IN_100Y: i64 = 365 * 100 + 24;

/// Number of days guaranteed to be in four hundred years.
pub const DAYS_IN_400Y: i64 = 365 * 400 + 97;

/// Number of days between **1st January, 1970** and **1st March, 2000**:
/// thirty years, seven leap days, and the January and February of 2000.
pub const EPOCH_DIFFERENCE: i64 = 30 * 365 + 7 + 31 + 29;

/// The widest year a `local::Date` may carry. Every date reachable from a
/// 64-bit second count lies far inside this range, and all the day-count
/// arithmetic below stays inside `i64` for years within it.
pub const YEAR_LIMIT: i64 = 1_000_000_000_000;

/// The widest march-rebased day count that the date reconstruction
/// accepts; it covers every date whose year is within `YEAR_LIMIT`.
pub const DAY_LIMIT: i64 = 366_000_000_000_000;

/// The day number of the given calendar date, counted from the 1st of
/// January, 1970 as day zero. The formula is total: fed a day outside the
/// month it answers as if the month simply kept counting.
pub open spec fn days_since_epoch_spec(year: int, month: Month, day: int) -> int {
    365 * (year - 2000) + leap_years_elapsed_spec(year) + 10958 + month.days_before_spec() + (
    if is_leap_spec(year) && month.index_spec() >= 2 {
        1int
    } else {
        0int
    }) + (day - 1)
}

/// The number of days from the 1st of March, 2000 to the 1st of March of
/// the year `2000 + my`.
pub open spec fn march_days_spec(my: int) -> int {
    365 * my + my / 4 - my / 100 + my / 400
}

/// The weekday number (Sunday is 0) of the day `days` counted from the
/// 1st of January, 1970, which was a Thursday.
pub open spec fn weekday_number_spec(days: int) -> int {
    (days + 4) % 7
}

/// Days elapsed from the 1st of March of a month's "march year" to the
/// start of the month: the irregular February sits at the very end, so
/// these offsets do not depend on leapness.
pub open spec fn month_march_offset_spec(month: Month) -> int {
    match month {
        Month::March => 0,
        Month::April => 31,
        Month::May => 61,
        Month::June => 92,
        Month::July => 122,
        Month::August => 153,
        Month::September => 184,
        Month::October => 214,
        Month::November => 245,
        Month::December => 275,
        Month::January => 306,
        Month::February => 337,
    }
}

/// The march year a date belongs to, relative to 2000: the span from one
/// 1st of March to the next, so January and February count with the
/// preceding calendar year.
pub open spec fn march_year_spec(year: int, month: Month) -> int {
    if month.index_spec() >= 2 {
        year - 2000
    } else {
        year - 2001
    }
}

/// Every date's day count decomposes into the 1st of March of its march
/// year plus a month offset that does not depend on the year.
pub proof fn lemma_days_from_march(year: int, month: Month, day: int)
    ensures
        days_since_epoch_spec(year, month, day) == EPOCH_DIFFERENCE + march_days_spec(
            march_year_spec(year, month),
        ) + month_march_offset_spec(month) + day - 1,
{
    if month.index_spec() >= 2 {
        assert(days_since_epoch_spec(year, Month::March, 1) == EPOCH_DIFFERENCE + march_days_spec(
            year - 2000,
        ));
    } else {
        lemma_leap_years_elapsed_step(year - 1);
        assert(days_since_epoch_spec(year - 1, Month::March, 1) == EPOCH_DIFFERENCE
            + march_days_spec(year - 2001));
    }
}

/// From the 1st of March of one march year to the next is 365 days, plus
/// one when the February inside the span belongs to a leap year.
pub proof fn lemma_march_days_step(my: int)
    ensures
        march_days_spec(my + 1) == march_days_spec(my) + year_length_spec(
            is_leap_spec(2001 + my),
        ),
{
    crate::units::lemma_div_step(my, 4);
    crate::units::lemma_div_step(my, 100);
    crate::units::lemma_div_step(my, 400);
    lemma_mod_multiples_vanish(500, my + 1, 4);
    lemma_mod_multiples_vanish(20, my + 1, 100);
    lemma_mod_multiples_vanish(5, my + 1, 400);
    crate::units::lemma_divisibility_chain(2001 + my);
}

/// A march-year count split into 400-, 100-, and 4-year cycles turns into
/// a day count through the fixed cycle lengths.
pub proof fn lemma_march_days_decompose(a: int, b: int, c: int, e: int)
    requires
        0 <= b <= 3,
        0 <= c <= 24,
        0 <= e <= 3,
    ensures
        march_days_spec(400 * a + 100 * b + 4 * c + e) == 146097 * a + 36524 * b + 1461 * c + 365
            * e,
{
    let my = 400 * a + 100 * b + 4 * c + e;
    lemma_fundamental_div_mod_converse(my, 400, a, 100 * b + 4 * c + e);
    lemma_fundamental_div_mod_converse(my, 100, 4 * a + b, 4 * c + e);
    lemma_fundamental_div_mod_converse(my, 4, 100 * a + 25 * b + c, e);
}

/// Assumes the `YearMonthDay` is valid, and will return an answer even
/// when given an invalid one: an out-of-range day simply keeps counting
/// into the following month. Validation is the caller's responsibility.
pub fn days_since_epoch(ymd: YearMonthDay) -> (r: i64)
    requires
        -YEAR_LIMIT - 2 <= ymd.year.0 <= YEAR_LIMIT + 2,
    ensures
        r == days_since_epoch_spec(ymd.year.0 as int, ymd.month, ymd.day as int),
{
    let years: i64 = ymd.year.0 - 2000;
    let (leap_days_elapsed, is_leap_year) = ymd.year.leap_year_calculations();

    proof {
        lemma_elapsed_magnitude(ymd.year.0 as int);
    }

    // Work out the number of days from the start of 1970 to now,
    // which is a multiple of the number of years...
    years * 365

        // Plus the number of days between the start of 2000 and the
        // start of 1970, to make up the difference because our
        // dates start at 2000 and day counts start at 1970...
        + 10958

        // Plus the number of leap years that have elapsed between
        // now and the start of 2000...
        + leap_days_elapsed

        // Plus the number of days in all the months leading up to
        // the current month...
        + ymd.month.days_before_start() as i64

        // Plus an extra leap day for *this* year...
        + if is_leap_year && ymd.month.months_from_january() >= 2 { 1 } else { 0 }

        // Plus the number of days in the month so far! (Days are
        // 1-indexed, so we make them 0-indexed here)
        + (ymd.day as i64 - 1)
}

/// The elapsed-leap-year count grows about a quarter as fast as the year,
/// in either direction.
proof fn lemma_elapsed_magnitude(year: int)
    ensures
        (year - 2000) / 4 - (year - 2000) / 100 + (year - 2000) / 400 - 1
            <= leap_years_elapsed_spec(year)
            <= (year - 2000) / 4 - (year - 2000) / 100 + (year - 2000) / 400,
        year >= 2000 ==> 0 <= (year - 2000) / 4 - (year - 2000) / 100 + (year - 2000) / 400
            <= year - 2000,
        year < 2000 ==> year - 2000 <= (year - 2000) / 4 - (year - 2000) / 100 + (year - 2000)
            / 400 <= 0,
{
    let y = year - 2000;
    lemma_fundamental_div_mod(y, 4);
    lemma_fundamental_div_mod(y, 100);
    lemma_fundamental_div_mod(y, 400);
}

/// The widest march-year count that a decomposed day can carry; every day
/// count within `DAY_LIMIT` lands inside it.
pub const MARCH_YEAR_LIMIT: i64 = 1_003_000_000_000;

/// A count of days with the engine's internal bias: day zero here is the
/// 1st of March, 2000, not the Unix epoch.
pub struct DaysSinceEpoch(pub(crate) i64);

impl DaysSinceEpoch {
    /// The biased day count this value carries: zero names the 1st of
    /// March, 2000.
    pub closed spec fn biased_spec(self) -> int {
        self.0 as int
    }

    /// Wraps a count that is already based on the 1st of March, 2000.
    pub fn of_march_days(days: i64) -> (r: DaysSinceEpoch)
        ensures
            r.biased_spec() == days,
    {
        DaysSinceEpoch(days)
    }

    pub fn new(days_since_unix_epoch: i64) -> (r: DaysSinceEpoch)
        requires
            days_since_unix_epoch >= i64::MIN + EPOCH_DIFFERENCE,
        ensures
            r.biased_spec() == days_since_unix_epoch - EPOCH_DIFFERENCE,
    {
        DaysSinceEpoch(days_since_unix_epoch - EPOCH_DIFFERENCE)
    }

    pub fn add(&mut self, days: i64)
        requires
            i64::MIN <= old(self).biased_spec() + days <= i64::MAX,
        ensures
            final(self).biased_spec() == old(self).biased_spec() + days,
    {
        self.0 += days;
    }

    /// The unbiased count: days since the 1st of January, 1970.
    pub fn count(&self) -> (r: i64)
        requires
            self.biased_spec() + EPOCH_DIFFERENCE <= i64::MAX,
        ensures
            r == self.biased_spec() + EPOCH_DIFFERENCE,
    {
        self.0 + EPOCH_DIFFERENCE
    }

    /// Computes the weekday, working entirely from the day count: the
    /// calendar fields are never consulted.
    pub fn weekday(&self) -> (r: Weekday)
        requires
            self.biased_spec() <= i64::MAX - 3,
        ensures
            r.index_spec() == weekday_number_spec(self.biased_spec() + EPOCH_DIFFERENCE),
    {
        // March 1st, 2000 was a Wednesday, so add 3 to the number of days.
        let weekday: i64 = (self.0 + 3) % 7;
        let weekday: i64 = if weekday < 0 {
            weekday + 7
        } else {
            weekday
        };
        proof {
            let x = self.0 + 3int;
            if x >= 0 {
                lemma_fundamental_div_mod(x, 7);
            } else {
                lemma_fundamental_div_mod(-x, 7);
                let q = (-x) / 7;
                let w0 = -((-x) % 7);
                if w0 == 0 {
                    lemma_fundamental_div_mod_converse(x, 7, -q, 0);
                } else {
                    lemma_fundamental_div_mod_converse(x, 7, -q - 1, w0 + 7);
                }
            }
            lemma_mod_multiples_vanish(1574, x, 7);
            assert(self.0 + 3 + 7 * 1574 == self.biased_spec() + EPOCH_DIFFERENCE + 4);
        }
        Weekday::from_zero(weekday as i8).unwrap()
    }

    /// Decomposes the day count into 400-year, 100-year, and 4-year
    /// Gregorian cycles plus the days left in the final year.
    pub fn to_yd(&self) -> (r: ExactDay)
        requires
            -DAY_LIMIT <= self.biased_spec() <= DAY_LIMIT,
        ensures
            r.valid_spec(),
            r.day_spec() == self.biased_spec(),
    {
        // The Gregorian calendar works in 400-year cycles, which repeat
        // themselves ever after.
        //
        // This calculation works by finding the number of 400-year,
        // 100-year, and 4-year cycles, then constantly subtracting the
        // number of leftover days.
        let (num_400y_cycles, mut remainder) = split_cycles(self.0, DAYS_IN_400Y);
        let ghost rem0 = remainder as int;
        assert(self.0 == num_400y_cycles * 146097 + rem0) by (nonlinear_arith)
            requires
                self.0 == num_400y_cycles * DAYS_IN_400Y + rem0,
                DAYS_IN_400Y == 146097,
        ;

        // Calculate the numbers of 100-year cycles, 4-year cycles, and
        // leftover years, continually reducing the number of days left to
        // think about. The quotient is clamped at each stage: the very
        // last day of a cycle is a February the 29th that belongs to the
        // cycle just ended, not to the one a plain division would pick.
        let mut num_100y_cycles: i64 = remainder / DAYS_IN_100Y;
        proof {
            lemma_fundamental_div_mod(rem0, DAYS_IN_100Y as int);
        }
        if num_100y_cycles == 4 {
            num_100y_cycles = 3;
        }
        remainder -= num_100y_cycles * DAYS_IN_100Y;  // remainder is now days left in this 100-year cycle
        let ghost rem1 = remainder as int;
        assert(rem0 == 36524 * num_100y_cycles + rem1 && 0 <= num_100y_cycles <= 3 && 0 <= rem1
            && (rem1 < 36524 || (num_100y_cycles == 3 && rem1 == 36524)));

        let num_4y_cycles: i64 = remainder / DAYS_IN_4Y;
        proof {
            lemma_fundamental_div_mod(rem1, DAYS_IN_4Y as int);
        }
        remainder -= num_4y_cycles * DAYS_IN_4Y;  // remainder is now days left in this 4-year cycle
        let ghost rem2 = remainder as int;
        assert(rem1 == 1461 * num_4y_cycles + rem2 && 0 <= num_4y_cycles <= 24 && 0 <= rem2
            <= 1460 && (num_4y_cycles == 24 && rem2 == 1460 ==> num_100y_cycles == 3));

        let mut years: i64 = remainder / 365;
        proof {
            lemma_fundamental_div_mod(rem2, 365);
        }
        if years == 4 {
            years = 3;
        }
        remainder -= years * 365;  // remainder is now days left in this year
        assert(rem2 == 365 * years + remainder && 0 <= years <= 3 && 0 <= remainder <= 365 && (
        remainder == 365 ==> years == 3 && rem2 == 1460));

        // Leap year calculation goes thusly:
        //
        // 1. If the year is a multiple of 400, it's a leap year.
        // 2. Else, if the year is a multiple of 100, it's *not* a leap year.
        // 3. Else, if the year is a multiple of 4, it's a leap year again!
        //
        // We already have the values for the numbers of multiples at this
        // point, and it's safe to re-use them.
        let days_this_year: i64 = if years == 0 && !(num_4y_cycles == 0 && num_100y_cycles != 0) {
            366
        } else {
            365
        };

        // Turn all those cycles into an actual number of years.
        assert(-2_506_000_000 <= num_400y_cycles <= 2_506_000_000) by (nonlinear_arith)
            requires
                num_400y_cycles * 146097 == self.0 - rem0,
                -DAY_LIMIT <= self.0 <= DAY_LIMIT,
                DAY_LIMIT == 366_000_000_000_000,
                0 <= rem0 < 146097,
        ;
        let march_years: i64 = years + 4 * num_4y_cycles + 100 * num_100y_cycles + 400
            * num_400y_cycles;

        proof {
            let a = num_400y_cycles as int;
            let b = num_100y_cycles as int;
            let c = num_4y_cycles as int;
            let e = years as int;
            let my = march_years as int;
            lemma_march_days_decompose(a, b, c, e);
            lemma_mod_multiples_vanish(500, my, 4);
            lemma_mod_multiples_vanish(20, my, 100);
            lemma_mod_multiples_vanish(5, my, 400);
            lemma_fundamental_div_mod_converse(my, 4, 100 * a + 25 * b + c, e);
            lemma_fundamental_div_mod_converse(my, 100, 4 * a + b, 4 * c + e);
            lemma_fundamental_div_mod_converse(my, 400, a, 100 * b + 4 * c + e);
            assert(days_this_year == year_length_spec(is_leap_spec(2000 + my)));
            if remainder == 365 {
                // Only the trailing leap day of a cycle leaves 365 whole
                // days: the following March then opens a leap year.
                lemma_mod_multiples_vanish(500, my + 1, 4);
                lemma_fundamental_div_mod_converse(my + 1, 4, 100 * a + 25 * b + c + 1, 0);
                if c == 24 {
                    lemma_mod_multiples_vanish(20, my + 1, 100);
                    lemma_mod_multiples_vanish(5, my + 1, 400);
                    lemma_fundamental_div_mod_converse(my + 1, 100, 4 * a + 4, 0);
                    lemma_fundamental_div_mod_converse(my + 1, 400, a + 1, 0);
                } else {
                    lemma_mod_multiples_vanish(20, my + 1, 100);
                    lemma_fundamental_div_mod_converse(my + 1, 100, 4 * a + b, 4 * c + 4);
                }
                assert(is_leap_spec(2001 + my));
            }
        }

        ExactDay { year: march_years, remainder, days_this_year }
    }
}

/// A day pinned down inside its year: the march year it falls in, how
/// many whole days of that march year precede it, and the length of the
/// calendar year the march year opened in.
pub struct ExactDay {
    year: i64,
    remainder: i64,
    days_this_year: i64,
}

impl ExactDay {
    /// The value is a faithful decomposition: the remainder fits inside
    /// the march year, a remainder of 365 only appears when the following
    /// March opens a leap year, and the stored year length matches the
    /// calendar year.
    pub closed spec fn valid_spec(self) -> bool {
        &&& -MARCH_YEAR_LIMIT <= self.year <= MARCH_YEAR_LIMIT
        &&& 0 <= self.remainder <= 365
        &&& (self.remainder == 365 ==> is_leap_spec(2001 + self.year))
        &&& self.days_this_year == year_length_spec(is_leap_spec(2000 + self.year))
    }

    /// The biased day count this decomposition stands for.
    pub closed spec fn day_spec(self) -> int {
        march_days_spec(self.year as int) + self.remainder
    }

    /// The calendar year the day falls in: the march year's own calendar
    /// year, or the next one once the remainder reaches January.
    pub closed spec fn date_year_spec(self) -> int {
        if self.remainder >= 306 {
            2001 + self.year
        } else {
            2000 + self.year
        }
    }

    /// Which number day of its calendar year this is, starting from 1.
    pub fn yearday(&self) -> (r: i16)
        requires
            self.valid_spec(),
        ensures
            r == self.day_spec() + EPOCH_DIFFERENCE - days_since_epoch_spec(
                self.date_year_spec(),
                Month::January,
                1,
            ) + 1,
            1 <= r <= 366,
    {
        // Find out which number day of the year it is.
        // The 306 here refers to the number of days in a year excluding
        // January and February (which are excluded because of the EPOCH)
        let mut day_of_year: i64 = self.remainder + self.days_this_year - 306;
        if day_of_year >= self.days_this_year {
            day_of_year -= self.days_this_year;  // wrap around for January and February
        }
        proof {
            lemma_days_from_march(self.date_year_spec(), Month::January, 1);
            lemma_march_days_step(self.year as int - 1);
        }
        (day_of_year + 1) as i16
    }

    /// The calendar date of this day, found by scanning the fixed table
    /// of month boundaries within the march year.
    pub fn ymd(&self) -> (r: YearMonthDay)
        requires
            self.valid_spec(),
        ensures
            r.valid_spec(),
            r.year.0 == self.date_year_spec(),
            days_since_epoch_spec(r.year.0 as int, r.month, r.day as int) == self.day_spec()
                + EPOCH_DIFFERENCE,
    {
        let rem = self.remainder;

        // Work out the month and number of days into the month by walking
        // the month boundaries backwards from February, finding the month
        // whose days have all passed. The year wraps forward once the
        // remainder reaches January.
        let (month, days_before): (Month, i64) = if rem >= 337 {
            (Month::February, 337)
        } else if rem >= 306 {
            (Month::January, 306)
        } else if rem >= 275 {
            (Month::December, 275)
        } else if rem >= 245 {
            (Month::November, 245)
        } else if rem >= 214 {
            (Month::October, 214)
        } else if rem >= 184 {
            (Month::September, 184)
        } else if rem >= 153 {
            (Month::August, 153)
        } else if rem >= 122 {
            (Month::July, 122)
        } else if rem >= 92 {
            (Month::June, 92)
        } else if rem >= 61 {
            (Month::May, 61)
        } else if rem >= 31 {
            (Month::April, 31)
        } else {
            (Month::March, 0)
        };
        let year_wrap: i64 = if rem >= 306 {
            1
        } else {
            0
        };

        let year = Year(2000 + self.year + year_wrap);
        let day: i8 = (rem - days_before + 1) as i8;

        proof {
            lemma_days_from_march(year.0 as int, month, day as int);
            if rem >= 306 {
                lemma_march_days_step(self.year as int);
            }
        }

        YearMonthDay { year, month, day }
    }
}

/// For a year inside `YEAR_LIMIT`, the day count stays inside
/// `DAY_LIMIT`, with room to spare.
pub proof fn lemma_epoch_days_bound(year: int, month: Month, day: int)
    requires
        -YEAR_LIMIT - 1 <= year <= YEAR_LIMIT + 1,
        -400 <= day <= 400,
    ensures
        -DAY_LIMIT + EPOCH_DIFFERENCE <= days_since_epoch_spec(year, month, day) <= DAY_LIMIT
            + EPOCH_DIFFERENCE,
{
    lemma_elapsed_magnitude(year);
}

/// Whether the raw fields name a real calendar day: the day is at least 1
/// and fits inside the month, February's length following the year.
pub open spec fn ymd_fields_valid_spec(year: int, month: Month, day: int) -> bool {
    1 <= day <= month.days_spec(is_leap_spec(year))
}

/// Calendar order on raw fields: the first triple names an earlier day.
pub open spec fn ymd_before_spec(
    y1: int,
    m1: Month,
    d1: int,
    y2: int,
    m2: Month,
    d2: int,
) -> bool {
    ||| y1 < y2
    ||| (y1 == y2 && m1.index_spec() < m2.index_spec())
    ||| (y1 == y2 && m1 == m2 && d1 < d2)
}

/// Within one year, a month's days all pass before the next month opens.
proof fn lemma_month_blocks_ordered(year: int, m1: Month, m2: Month)
    requires
        m1.index_spec() < m2.index_spec(),
    ensures
        m1.days_before_spec() + (if is_leap_spec(year) && m1.index_spec() >= 2 {
            1int
        } else {
            0int
        }) + m1.days_spec(is_leap_spec(year)) <= m2.days_before_spec() + (if is_leap_spec(year)
            && m2.index_spec() >= 2 {
            1int
        } else {
            0int
        }),
{
}

/// The first day of a year comes 365 or 366 days after the first day of
/// the year before, depending on the earlier year's leapness.
pub proof fn lemma_year_start_step(year: int)
    ensures
        days_since_epoch_spec(year + 1, Month::January, 1) == days_since_epoch_spec(
            year,
            Month::January,
            1,
        ) + year_length_spec(is_leap_spec(year)),
{
    lemma_leap_years_elapsed_step(year);
}

/// Year starts keep calendar order, separated by at least 365 days per
/// year between them.
proof fn lemma_year_starts_ordered(y1: int, y2: int)
    requires
        y1 <= y2,
    ensures
        days_since_epoch_spec(y1, Month::January, 1) + 365 * (y2 - y1) <= days_since_epoch_spec(
            y2,
            Month::January,
            1,
        ),
    decreases y2 - y1,
{
    if y1 < y2 {
        lemma_year_starts_ordered(y1, y2 - 1);
        lemma_year_start_step(y2 - 1);
    }
}

/// Day-count monotonicity: of two valid dates in calendar order, the
/// earlier one has the strictly smaller day count.
pub proof fn lemma_days_since_epoch_monotonic(
    y1: int,
    m1: Month,
    d1: int,
    y2: int,
    m2: Month,
    d2: int,
)
    requires
        ymd_fields_valid_spec(y1, m1, d1),
        ymd_fields_valid_spec(y2, m2, d2),
        ymd_before_spec(y1, m1, d1, y2, m2, d2),
    ensures
        days_since_epoch_spec(y1, m1, d1) < days_since_epoch_spec(y2, m2, d2),
{
    if y1 == y2 {
        if m1.index_spec() < m2.index_spec() {
            lemma_month_blocks_ordered(y1, m1, m2);
        }
    } else {
        if m1.index_spec() < Month::December.index_spec() {
            lemma_month_blocks_ordered(y1, m1, Month::December);
        }
        lemma_year_start_step(y1);
        lemma_year_starts_ordered(y1 + 1, y2);
    }
}

/// A day count that lands inside a year's span belongs to that year: a
/// valid date some days past the 1st of January, but within the year's
/// length, carries that same year.
pub proof fn lemma_day_count_locates_year(year: int, k: int, y2: int, m2: Month, d2: int)
    requires
        ymd_fields_valid_spec(y2, m2, d2),
        0 <= k < year_length_spec(is_leap_spec(year)),
        days_since_epoch_spec(y2, m2, d2) == days_since_epoch_spec(year, Month::January, 1) + k,
    ensures
        y2 == year,
{
    if y2 < year {
        lemma_days_since_epoch_monotonic(y2, m2, d2, year, Month::January, 1);
    } else if y2 > year {
        lemma_year_start_step(year);
        lemma_days_since_epoch_monotonic(year, Month::December, 31, y2, m2, d2);
    }
}

/// The day count separates valid dates: two valid dates with one day
/// count are one date.
pub proof fn lemma_days_since_epoch_injective(
    y1: int,
    m1: Month,
    d1: int,
    y2: int,
    m2: Month,
    d2: int,
)
    requires
        ymd_fields_valid_spec(y1, m1, d1),
        ymd_fields_valid_spec(y2, m2, d2),
        days_since_epoch_spec(y1, m1, d1) == days_since_epoch_spec(y2, m2, d2),
    ensures
        y1 == y2 && m1 == m2 && d1 == d2,
{
    if !(y1 == y2 && m1 == m2 && d1 == d2) {
        if ymd_before_spec(y1, m1, d1, y2, m2, d2) {
            lemma_days_since_epoch_monotonic(y1, m1, d1, y2, m2, d2);
        } else {
            assert(ymd_before_spec(y2, m2, d2, y1, m1, d1));
            lemma_days_since_epoch_monotonic(y2, m2, d2, y1, m1, d1);
        }
    }
}

} // verus!
