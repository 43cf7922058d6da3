use datetime::local::Date;
use datetime::units::{Month, Year};

#[test]
fn ymd_to_date_the_distant_past() {
    let date = Date::ymd(7, Month::April, 1).unwrap();

    assert_eq!(date.year(), Year::from(7));
    assert_eq!(date.month(), Month::April);
    assert_eq!(date.day(), 1);
}

#[test]
fn ymd_to_date_the_distant_present() {
    let date = Date::ymd(2015, Month::January, 16).unwrap();

    assert_eq!(date.year(), Year::from(2015));
    assert_eq!(date.month(), Month::January);
    assert_eq!(date.day(), 16);
}

#[test]
fn ymd_to_date_the_distant_future() {
    let date = Date::ymd(1048576, Month::October, 13).unwrap();

    assert_eq!(date.year(), Year::from(1048576));
    assert_eq!(date.month(), Month::October);
    assert_eq!(date.day(), 13);
}

#[test]
fn date_from_ymd_the_distant_past() {
    let date = Date::ymd(7, Month::April, 1).unwrap();

    assert_eq!(date.year(), Year::from(7));
    assert_eq!(date.month(), Month::April);
    assert_eq!(date.day(), 1);
}

#[test]
fn date_from_ymd_the_distant_present() {
    let date = Date::ymd(2015, Month::January, 16).unwrap();

    assert_eq!(date.year(), Year::from(2015));
    assert_eq!(date.month(), Month::January);
    assert_eq!(date.day(), 16);
}

#[test]
fn date_from_ymd_the_distant_future() {
    let date = Date::ymd(1048576, Month::October, 13).unwrap();

    assert_eq!(date.year(), Year::from(1048576));
    assert_eq!(date.month(), Month::October);
    assert_eq!(date.day(), 13);
}
