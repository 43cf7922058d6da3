use datetime::compounds::YearMonth;
use datetime::iter::{DaysIter, MonthsIter};
use datetime::local::Date;
use datetime::units::Month::{January, February, March, April, May, June, July, August, September, October, November, December};
use datetime::units::Year;

#[test]
fn mod_entire_year() {
    let mut count = 0;
    for ym in Year::from(1999).months(..).to_vec() {
        count += ym.days(..).to_vec().len();
    }
    assert_eq!(count, 365);
}

#[test]
fn mod_entire_leap_year() {
    let mut count = 0;
    for ym in Year::from(2000).months(..).to_vec() {
        count += ym.days(..).to_vec().len();
    }
    assert_eq!(count, 366);
}

#[test]
fn month_into_days_range_full() {
    let year = Year::from(2013).month(February);
    let days: Vec<Date> = year.days(..).to_vec();
    let results: Vec<Date> = (1..29).map(|d| Date::ymd(2013, February, d).unwrap()).collect();
    assert_eq!(days, results);
}

#[test]
fn month_into_days_range_full_leap_year() {
    let year = Year::from(2000).month(February);
    let days: Vec<Date> = year.days(..).to_vec();
    let results: Vec<Date> = (1..30).map(|d| Date::ymd(2000, February, d).unwrap()).collect();
    assert_eq!(days, results);
}

#[test]
fn month_into_days_range() {
    let year = Year::from(2008).month(March);
    let days: Vec<Date> = year.days(10..20).to_vec();
    let results: Vec<Date> = (10..20).map(|d| Date::ymd(2008, March, d).unwrap()).collect();
    assert_eq!(days, results);
}

#[test]
fn year_into_months_range_full() {
    let year = Year::from(2013);
    let months: Vec<YearMonth> = year.months(..).to_vec();
    assert_eq!(months, vec![
        year.month(January),
        year.month(February),
        year.month(March),
        year.month(April),
        year.month(May),
        year.month(June),
        year.month(July),
        year.month(August),
        year.month(September),
        year.month(October),
        year.month(November),
        year.month(December),
    ]);
}

#[test]
fn year_into_months_range_from() {
    let year = Year::from(2013);
    let months: Vec<YearMonth> = year.months(July..).to_vec();
    assert_eq!(months, vec![
        year.month(July),
        year.month(August),
        year.month(September),
        year.month(October),
        year.month(November),
        year.month(December),
    ]);
}

#[test]
fn year_into_months_range_to() {
    let year = Year::from(2013);
    let months: Vec<YearMonth> = year.months(..July).to_vec();
    assert_eq!(months, vec![
        year.month(January),
        year.month(February),
        year.month(March),
        year.month(April),
        year.month(May),
        year.month(June),
    ]);
}

#[test]
fn year_into_months_range() {
    let year = Year::from(2013);
    let months: Vec<YearMonth> = year.months(April..July).to_vec();
    assert_eq!(months, vec![
        year.month(April),
        year.month(May),
        year.month(June),
    ]);
}

#[test]
fn year_into_months_range_empty() {
    let year = Year::from(2013);
    let months: Vec<YearMonth> = year.months(August..August).to_vec();
    assert!(months.is_empty());
}

#[test]
fn year_into_months_range_singular() {
    let year = Year::from(2013);
    let months = year.month(April);
    assert_eq!(months, year.month(April));
}
