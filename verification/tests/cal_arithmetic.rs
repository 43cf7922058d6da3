use datetime::basic::Duration;
use datetime::local;

#[test]
fn arithmetic_addition() {
    let date = local::DateTime::at(10000);
    assert_eq!(local::DateTime::at(10001), date + Duration::of(1))
}

#[test]
fn arithmetic_subtraction() {
    let date = local::DateTime::at(100000000);
    assert_eq!(local::DateTime::at(99999999), date - Duration::of(1))
}

#[test]
fn cal_arithmetic_addition() {
    let date = local::DateTime::at(10000);
    assert_eq!(local::DateTime::at(10001), date + Duration::of(1))
}

#[test]
fn cal_arithmetic_subtraction() {
    let date = local::DateTime::at(100000000);
    assert_eq!(local::DateTime::at(99999999), date - Duration::of(1))
}
