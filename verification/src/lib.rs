//! A proleptic-Gregorian calendar and clock-time library.
//!
//! The crate converts between a linear count of elapsed time (seconds or
//! milliseconds since the Unix epoch) and human calendar fields (year, month,
//! day, hour, minute, second, millisecond, weekday, day-of-year), with
//! arithmetic on those fields. Leap years follow the standard Gregorian
//! 4/100/400 rule; leap seconds are ignored; only fixed numeric UTC offsets
//! are modelled.

pub mod basic;
pub mod compounds;
pub mod days;
pub mod fmt;
pub mod iter;
pub mod local;
pub mod offset;
pub mod parse;
pub mod units;
pub mod util;

pub use basic::{Duration, Instant};
pub use compounds::{YearMonth, YearMonthDay};
pub use units::{Month, Weekday, Year};
