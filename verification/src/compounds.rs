//! Compound values built from a year and the smaller units.

use vstd::prelude::*;

use crate::units::{is_leap_spec, Month, Year};

verus! {

/// A month-year pair.
#[derive(PartialEq, Eq, Structural, Debug, Copy, Clone)]
pub struct YearMonth {
    pub year: Year,
    pub month: Month,
}

/// A triple of year, month, and day-of-month.
///
/// The fields are plain values and nothing stops an invalid combination
/// from being written down; `valid_spec` says when the triple names a real
/// calendar day, and the validating constructors of `local::Date` are the
/// only paths that check it.
#[derive(PartialEq, Eq, Structural, Debug, Copy, Clone)]
pub struct YearMonthDay {
    pub year: Year,
    pub month: Month,
    pub day: i8,
}

impl YearMonthDay {
    /// The day lies between 1 and the length of the month, with February's
    /// length depending on the year's leapness.
    pub open spec fn valid_spec(self) -> bool {
        1 <= self.day <= self.month.days_spec(is_leap_spec(self.year.0 as int))
    }
}

impl Year {
    /// Returns a year-month, pairing this year with the given month.
    pub fn month(&self, month: Month) -> (r: YearMonth)
        ensures
            r.year == *self,
            r.month == month,
    {
        YearMonth { year: *self, month }
    }
}

impl YearMonth {
    /// Returns the number of days in this month. This can be definitely
    /// known, as the paired year determines whether it's a leap year, so
    /// there's no chance of being caught out by February.
    pub fn day_count(&self) -> (r: i8)
        requires
            self.year.0 >= i64::MIN + 2000,
        ensures
            r == self.month.days_spec(is_leap_spec(self.year.0 as int)),
    {
        self.month.days_in_month(self.year.is_leap_year())
    }

    /// Returns a `YearMonthDay` based on this year and month, along with
    /// the given day.
    ///
    /// This is just a short-cut for creating `YearMonthDay` values, and
    /// doesn't do anything special.
    pub fn day(&self, day: i8) -> (r: YearMonthDay)
        ensures
            r.year == self.year,
            r.month == self.month,
            r.day == day,
    {
        YearMonthDay { year: self.year, month: self.month, day }
    }
}

} // verus!
