use datetime::basic::{Duration, Instant};

#[test]
fn addition() {
    assert_eq!(Instant::at(10), Instant::at(3) + Duration::of(7))
}

#[test]
fn subtraction() {
    assert_eq!(Instant::at(20), Instant::at(50) - Duration::of(30))
}

#[test]
fn simple_arithmetic_addition() {
    assert_eq!(Instant::at(10), Instant::at(3) + Duration::of(7))
}

#[test]
fn simple_arithmetic_subtraction() {
    assert_eq!(Instant::at(20), Instant::at(50) - Duration::of(30))
}
