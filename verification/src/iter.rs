//! Spans of consecutive months in a year, and of consecutive days in a
//! month.

use core::ops::{Range, RangeFrom, RangeFull, RangeTo};
use vstd::prelude::*;

use crate::compounds::YearMonth;
use crate::days::YEAR_LIMIT;
use crate::local::{Date, Error};
use crate::units::{is_leap_spec, Month, Year};

verus! {

/// Relies on `core::ops::RangeFull` being the plain marker struct for the
/// `..` syntax, with no behaviour of its own.
#[verifier::external_type_specification]
pub struct ExRangeFull(RangeFull);

/// Relies on `core::ops::RangeFrom` being the plain struct for the `a..`
/// syntax, holding its public `start` field and nothing else.
#[verifier::external_type_specification]
#[verifier::reject_recursive_types(Idx)]
pub struct ExRangeFrom<Idx>(RangeFrom<Idx>);

/// Relies on `core::ops::RangeTo` being the plain struct for the `..b`
/// syntax, holding its public `end` field and nothing else.
#[verifier::external_type_specification]
#[verifier::reject_recursive_types(Idx)]
pub struct ExRangeTo<Idx>(RangeTo<Idx>);

/// The twelve months in calendar order.
pub open spec fn months_seq_spec() -> Seq<Month> {
    seq![
        Month::January,
        Month::February,
        Month::March,
        Month::April,
        Month::May,
        Month::June,
        Month::July,
        Month::August,
        Month::September,
        Month::October,
        Month::November,
        Month::December,
    ]
}

/// A span of months, which gets used to construct a `YearMonths` iterator.
///
/// See the `months` method of `Year` for more information.
pub trait MonthSpan: Sized {
    /// The index of the first month the span covers, with January as 0.
    spec fn start_spec(&self) -> int;

    /// The index just past the last month the span covers.
    spec fn end_spec(&self) -> int;

    /// Returns the list of `Month` values contained by this span.
    fn get_slice(&self) -> (r: Vec<Month>)
        requires
            0 <= self.start_spec() <= self.end_spec() <= 12,
        ensures
            r@ == months_seq_spec().subrange(self.start_spec(), self.end_spec()),
    ;
}

impl MonthSpan for RangeFull {
    open spec fn start_spec(&self) -> int {
        0
    }

    open spec fn end_spec(&self) -> int {
        12
    }

    fn get_slice(&self) -> (r: Vec<Month>) {
        let r = month_list(0, 12);
        proof {
            assert(r@ =~= months_seq_spec().subrange(0, 12));
        }
        r
    }
}

impl MonthSpan for RangeFrom<Month> {
    open spec fn start_spec(&self) -> int {
        self.start.index_spec()
    }

    open spec fn end_spec(&self) -> int {
        12
    }

    fn get_slice(&self) -> (r: Vec<Month>) {
        month_list(self.start.months_from_january(), 12)
    }
}

impl MonthSpan for RangeTo<Month> {
    open spec fn start_spec(&self) -> int {
        0
    }

    open spec fn end_spec(&self) -> int {
        self.end.index_spec()
    }

    fn get_slice(&self) -> (r: Vec<Month>) {
        month_list(0, self.end.months_from_january())
    }
}

impl MonthSpan for Range<Month> {
    open spec fn start_spec(&self) -> int {
        self.start.index_spec()
    }

    open spec fn end_spec(&self) -> int {
        self.end.index_spec()
    }

    fn get_slice(&self) -> (r: Vec<Month>) {
        month_list(self.start.months_from_january(), self.end.months_from_january())
    }
}

/// The months with indexes in `start..end`, in calendar order.
fn month_list(start: usize, end: usize) -> (r: Vec<Month>)
    requires
        0 <= start <= end <= 12,
    ensures
        r@ == months_seq_spec().subrange(start as int, end as int),
{
    let mut months: Vec<Month> = Vec::new();
    let mut index: usize = start;
    while index < end
        invariant
            start <= index <= end <= 12,
            months@ == months_seq_spec().subrange(start as int, index as int),
        decreases end - index,
    {
        let month = match index {
            0 => Month::January,
            1 => Month::February,
            2 => Month::March,
            3 => Month::April,
            4 => Month::May,
            5 => Month::June,
            6 => Month::July,
            7 => Month::August,
            8 => Month::September,
            9 => Month::October,
            10 => Month::November,
            _ => Month::December,
        };
        months.push(month);
        index += 1;
        proof {
            assert(months@ =~= months_seq_spec().subrange(start as int, index as int));
        }
    }
    months
}

/// Trait for types that span multiple months of a year. The obvious
/// example is a year, which contains twelve of them.
pub trait MonthsIter {
    /// Returns the continuous span of months in this year named by the
    /// argument, as year-month pairs.
    ///
    /// The argument can be of four different types, depending on the
    /// months you wish to cover:
    ///
    /// - The `RangeFull` type (such as `..`), which covers every month;
    /// - The `RangeFrom` type (such as `April ..`), which covers the
    ///   months starting from the month given;
    /// - The `RangeTo` type (such as `.. June`), which covers the months
    ///   stopping at *but not including* the month given;
    /// - The `Range` type (such as `April .. June`), which covers the
    ///   months starting from the left one and stopping at *but not
    ///   including* the right one.
    fn months<S: MonthSpan>(&self, span: S) -> (r: YearMonths)
        requires
            0 <= span.start_spec() <= span.end_spec() <= 12,
        ensures
            r.year_spec() == self.months_year_spec(),
            r.months_spec() == months_seq_spec().subrange(span.start_spec(), span.end_spec()),
    ;

    /// The year whose months the span covers.
    spec fn months_year_spec(&self) -> Year;
}

impl MonthsIter for Year {
    open spec fn months_year_spec(&self) -> Year {
        *self
    }

    fn months<S: MonthSpan>(&self, span: S) -> (r: YearMonths) {
        YearMonths { year: *self, months: span.get_slice() }
    }
}

/// A continuous span of months in a year.
///
/// Use the `months` method on `Year` to create values of this type.
pub struct YearMonths {
    year: Year,
    months: Vec<Month>,
}

impl YearMonths {
    pub closed spec fn year_spec(&self) -> Year {
        self.year
    }

    pub closed spec fn months_spec(&self) -> Seq<Month> {
        self.months@
    }

    /// The span's months, each paired with the year, in calendar order.
    pub fn to_vec(&self) -> (r: Vec<YearMonth>)
        ensures
            r@.len() == self.months_spec().len(),
            forall|i: int|
                0 <= i < r@.len() ==> r@[i] == (YearMonth {
                    year: self.year_spec(),
                    month: self.months_spec()[i],
                }),
    {
        let mut pairs: Vec<YearMonth> = Vec::new();
        let mut index: usize = 0;
        while index < self.months.len()
            invariant
                0 <= index <= self.months@.len(),
                pairs@.len() == index,
                forall|i: int|
                    0 <= i < index ==> pairs@[i] == (YearMonth {
                        year: self.year_spec(),
                        month: self.months_spec()[i],
                    }),
            decreases self.months@.len() - index,
        {
            pairs.push(YearMonth { year: self.year, month: self.months[index] });
            index += 1;
        }
        pairs
    }
}

/// A span of days, which gets used to construct a `MonthDays` iterator.
pub trait DaySpan: Sized {
    /// The first day-of-month number the span covers.
    spec fn first_spec(&self, ym: YearMonth) -> int;

    /// The day-of-month number just past the last one the span covers.
    spec fn past_spec(&self, ym: YearMonth) -> int;

    /// Returns the first day and the day past the end of this span within
    /// the given year-month pair.
    fn get_range(&self, ym: &YearMonth) -> (r: (i8, i8))
        requires
            ym.year.0 >= i64::MIN + 2000,
        ensures
            r.0 == self.first_spec(*ym),
            r.1 == self.past_spec(*ym),
    ;
}

impl DaySpan for RangeFull {
    open spec fn first_spec(&self, ym: YearMonth) -> int {
        1
    }

    open spec fn past_spec(&self, ym: YearMonth) -> int {
        ym.month.days_spec(is_leap_spec(ym.year.0 as int)) + 1
    }

    fn get_range(&self, ym: &YearMonth) -> (r: (i8, i8)) {
        (1, ym.day_count() + 1)
    }
}

impl DaySpan for RangeFrom<i8> {
    open spec fn first_spec(&self, ym: YearMonth) -> int {
        self.start as int
    }

    open spec fn past_spec(&self, ym: YearMonth) -> int {
        ym.month.days_spec(is_leap_spec(ym.year.0 as int)) + 1
    }

    fn get_range(&self, ym: &YearMonth) -> (r: (i8, i8)) {
        (self.start, ym.day_count() + 1)
    }
}

impl DaySpan for RangeTo<i8> {
    open spec fn first_spec(&self, ym: YearMonth) -> int {
        1
    }

    open spec fn past_spec(&self, ym: YearMonth) -> int {
        self.end as int
    }

    fn get_range(&self, ym: &YearMonth) -> (r: (i8, i8)) {
        (1, self.end)
    }
}

impl DaySpan for Range<i8> {
    open spec fn first_spec(&self, ym: YearMonth) -> int {
        self.start as int
    }

    open spec fn past_spec(&self, ym: YearMonth) -> int {
        self.end as int
    }

    fn get_range(&self, ym: &YearMonth) -> (r: (i8, i8)) {
        (self.start, self.end)
    }
}

/// Trait for types that span multiple days. The obvious example is a
/// month, which contains around thirty of them.
pub trait DaysIter {
    /// Returns the continuous span of days in this month named by the
    /// argument, as `local::Date` values.
    fn days<S: DaySpan>(&self, span: S) -> (r: MonthDays)
        requires
            self.days_ym_spec().year.0 >= i64::MIN + 2000,
        ensures
            r.ym_spec() == self.days_ym_spec(),
            r.first_day_spec() == span.first_spec(self.days_ym_spec()),
            r.past_day_spec() == span.past_spec(self.days_ym_spec()),
    ;

    /// The year-month pair whose days the span covers.
    spec fn days_ym_spec(&self) -> YearMonth;
}

impl DaysIter for YearMonth {
    open spec fn days_ym_spec(&self) -> YearMonth {
        *self
    }

    fn days<S: DaySpan>(&self, span: S) -> (r: MonthDays) {
        let (first, past) = span.get_range(self);
        MonthDays { ym: *self, first, past }
    }
}

/// A continuous span of days in a month.
///
/// Use the `days` method on `YearMonth` to create values of this type.
pub struct MonthDays {
    ym: YearMonth,
    first: i8,
    past: i8,
}

impl MonthDays {
    pub closed spec fn ym_spec(&self) -> YearMonth {
        self.ym
    }

    pub closed spec fn first_day_spec(&self) -> int {
        self.first as int
    }

    pub closed spec fn past_day_spec(&self) -> int {
        self.past as int
    }

    /// The dates of the span, in calendar order. A span that starts
    /// before the 1st or runs past the end of the month stops at the
    /// first day that is no real date.
    pub fn to_vec(&self) -> (r: Vec<Date>)
        requires
            -YEAR_LIMIT <= self.ym_spec().year.0 <= YEAR_LIMIT,
        ensures
            1 <= self.first_day_spec() && self.past_day_spec() <= self.ym_spec().month.days_spec(
                is_leap_spec(self.ym_spec().year.0 as int),
            ) + 1 ==> {
                &&& r@.len() == (if self.first_day_spec() <= self.past_day_spec() {
                    self.past_day_spec() - self.first_day_spec()
                } else {
                    0int
                })
                &&& forall|i: int|
                    0 <= i < r@.len() ==> (#[trigger] r@[i]).wf() && r@[i].year_spec()
                        == self.ym_spec().year.0 && r@[i].month_spec() == self.ym_spec().month
                        && r@[i].day_spec() == self.first_day_spec() + i
            },
    {
        let mut dates: Vec<Date> = Vec::new();
        let mut day: i8 = self.first;
        while day < self.past
            invariant
                -YEAR_LIMIT <= self.ym.year.0 <= YEAR_LIMIT,
                self.first <= day,
                day <= self.past || day == self.first,
                1 <= self.first && self.past <= self.ym.month.days_spec(
                    is_leap_spec(self.ym.year.0 as int),
                ) + 1 ==> {
                    &&& dates@.len() == day - self.first
                    &&& forall|i: int|
                        0 <= i < dates@.len() ==> (#[trigger] dates@[i]).wf() && dates@[i].year_spec()
                            == self.ym.year.0 && dates@[i].month_spec() == self.ym.month
                            && dates@[i].day_spec() == self.first + i
                },
            decreases self.past - day,
        {
            match Date::ymd(self.ym.year.0, self.ym.month, day) {
                Ok(date) => dates.push(date),
                Err(_) => { return dates; },
            }
            day += 1;
        }
        dates
    }
}

} // verus!
