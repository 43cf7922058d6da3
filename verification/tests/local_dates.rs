use datetime::days::days_since_epoch;
use datetime::local::Date;
use datetime::units::Month;

#[test]
fn some_leap_years() {
    for year in [2004, 2008, 2012, 2016].iter() {
        assert!(Date::ymd(*year, Month::February, 29).is_ok());
        assert!(Date::ymd(*year + 1, Month::February, 29).is_err());
    }
    assert!(Date::ymd(1600, Month::February, 29).is_ok());
    assert!(Date::ymd(1601, Month::February, 29).is_err());
    assert!(Date::ymd(1602, Month::February, 29).is_err());
}

#[test]
fn new() {
    for year in 1..3000 {
        assert!(Date::ymd(year, Month::January, 32).is_err());
        assert!(Date::ymd(year, Month::February, 30).is_err());
        assert!(Date::ymd(year, Month::March, 32).is_err());
        assert!(Date::ymd(year, Month::April, 31).is_err());
        assert!(Date::ymd(year, Month::May, 32).is_err());
        assert!(Date::ymd(year, Month::June, 31).is_err());
        assert!(Date::ymd(year, Month::July, 32).is_err());
        assert!(Date::ymd(year, Month::August, 32).is_err());
        assert!(Date::ymd(year, Month::September, 31).is_err());
        assert!(Date::ymd(year, Month::October, 32).is_err());
        assert!(Date::ymd(year, Month::November, 31).is_err());
        assert!(Date::ymd(year, Month::December, 32).is_err());
    }
}

#[test]
fn to_from_days_since_epoch() {
    let epoch_difference: i64 = 30 * 365 + 7 + 31 + 29; // days from 1970-01-01 to 2000-03-01
    for date in vec![
        Date::ymd(1970, Month::January, 1).unwrap(),
        Date::ymd(01, Month::January, 1).unwrap(),
        Date::ymd(1971, Month::January, 1).unwrap(),
        Date::ymd(1973, Month::January, 1).unwrap(),
        Date::ymd(1977, Month::January, 1).unwrap(),
        Date::ymd(1989, Month::November, 10).unwrap(),
        Date::ymd(1990, Month::July, 8).unwrap(),
        Date::ymd(2014, Month::July, 13).unwrap(),
        Date::ymd(2001, Month::February, 3).unwrap(),
    ] {
        assert_eq!(
            date,
            Date::from_days_since_epoch(days_since_epoch(date.ymd_val()) - epoch_difference)
        );
    }
}
