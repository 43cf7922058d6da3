//! Datetimes with a fixed UTC offset.
//!
//! An offset only shifts a local datetime for display; it does not touch
//! the day-count engine. Only fixed numeric offsets are modelled, never
//! named time zones or daylight-saving rules.

use vstd::arithmetic::div_mod::lemma_fundamental_div_mod;
use vstd::prelude::*;

use crate::days::EPOCH_DIFFERENCE;
use crate::local;
use crate::local::{Field, SECONDS_IN_DAY};

verus! {

/// A fixed offset from UTC: either UTC itself, or a whole number of
/// seconds within a day of it.
#[derive(PartialEq, Eq, Structural, Debug, Clone, Copy)]
pub struct Offset {
    offset_seconds: Option<i32>,
}

/// What can go wrong when building an offset or parsing an offset
/// datetime: a field out of its half-open range, hour and minute parts
/// whose signs disagree, or a date error from the calendar underneath.
#[derive(PartialEq, Eq, Structural, Debug, Clone, Copy)]
pub enum Error {
    OutOfRange { field: Field, value: i64, lower: i64, upper: i64 },
    SignMismatch,
    Date(local::Error),
}

impl Offset {
    pub closed spec fn seconds_opt_spec(self) -> Option<i32> {
        self.offset_seconds
    }

    /// The shift in seconds this offset applies; UTC shifts by nothing.
    pub open spec fn offset_value_spec(self) -> int {
        match self.seconds_opt_spec() {
            Some(s) => s as int,
            None => 0,
        }
    }

    /// The shift stays within one day of UTC.
    pub open spec fn wf(self) -> bool {
        -86400 <= self.offset_value_spec() <= 86400
    }

    /// The offset of UTC itself.
    pub fn utc() -> (r: Offset)
        ensures
            r.wf(),
            r.seconds_opt_spec() is None,
    {
        Offset { offset_seconds: None }
    }

    /// An offset of a whole number of seconds, up to one day in either
    /// direction.
    pub fn of_seconds(seconds: i32) -> (r: Result<Offset, Error>)
        ensures
            -86400 <= seconds <= 86400 ==> (r matches Ok(o) && o.wf() && o.seconds_opt_spec()
                == Some(seconds)),
            !(-86400 <= seconds <= 86400) ==> r == Err::<Offset, Error>(
                Error::OutOfRange {
                    field: Field::Second,
                    value: seconds as i64,
                    lower: -86400 as i64,
                    upper: 86401,
                },
            ),
    {
        if -86400 <= seconds && seconds <= 86400 {
            Ok(Offset { offset_seconds: Some(seconds) })
        } else {
            Err(
                Error::OutOfRange {
                    field: Field::Second,
                    value: seconds as i64,
                    lower: -86400 as i64,
                    upper: 86401,
                },
            )
        }
    }

    /// An offset of whole hours and minutes. The two parts must not pull
    /// in different directions.
    pub fn of_hours_and_minutes(hours: i8, minutes: i8) -> (r: Result<Offset, Error>)
        ensures
            hours > 0 && minutes < 0 || hours < 0 && minutes > 0 ==> r == Err::<Offset, Error>(
                Error::SignMismatch,
            ),
            !(hours > 0 && minutes < 0 || hours < 0 && minutes > 0) && !(-23 <= hours <= 23) ==> r
                == Err::<Offset, Error>(
                Error::OutOfRange { field: Field::Hour, value: hours as i64, lower: -23 as i64, upper: 24 },
            ),
            !(hours > 0 && minutes < 0 || hours < 0 && minutes > 0) && -23 <= hours <= 23 && !(-59
                <= minutes <= 59) ==> r == Err::<Offset, Error>(
                Error::OutOfRange {
                    field: Field::Minute,
                    value: minutes as i64,
                    lower: -59 as i64,
                    upper: 60,
                },
            ),
            !(hours > 0 && minutes < 0 || hours < 0 && minutes > 0) && -23 <= hours <= 23 && -59
                <= minutes <= 59 ==> (r matches Ok(o) && o.wf() && o.seconds_opt_spec() == Some(
                (hours * 3600 + minutes * 60) as i32,
            )),
    {
        if (hours > 0 && minutes < 0) || (hours < 0 && minutes > 0) {
            Err(Error::SignMismatch)
        } else if !(-23 <= hours && hours <= 23) {
            Err(Error::OutOfRange { field: Field::Hour, value: hours as i64, lower: -23, upper: 24 })
        } else if !(-59 <= minutes && minutes <= 59) {
            Err(
                Error::OutOfRange {
                    field: Field::Minute,
                    value: minutes as i64,
                    lower: -59 as i64,
                    upper: 60,
                },
            )
        } else {
            Offset::of_seconds(hours as i32 * (60 * 60) + minutes as i32 * 60)
        }
    }

    /// Pairs this offset with a local datetime for display.
    pub fn transform_date(&self, local: local::DateTime) -> (r: DateTime)
        ensures
            r.local == local,
            r.offset == *self,
    {
        DateTime { local, offset: *self }
    }

    /// Shifts the local datetime by this offset.
    pub fn adjust(&self, local: local::DateTime) -> (r: local::DateTime)
        requires
            self.wf(),
            local.wf(),
            i64::MIN <= local.date_spec().epoch_days_spec() * 86400,
            local.instant_seconds_spec() <= i64::MAX - 86400,
            local.instant_seconds_spec() >= i64::MIN + EPOCH_DIFFERENCE * SECONDS_IN_DAY + 86400,
        ensures
            r.wf(),
            r.instant_seconds_spec() == local.instant_seconds_spec() + self.offset_value_spec(),
            r.time_spec().millisecond_spec() == local.time_spec().millisecond_spec(),
    {
        match self.offset_seconds {
            Some(s) => local.add_seconds(s as i64),
            None => local,
        }
    }

    pub fn is_utc(&self) -> (r: bool)
        ensures
            r == (self.seconds_opt_spec() is None),
    {
        self.offset_seconds.is_none()
    }

    /// Whether the offset points west of UTC.
    pub fn is_negative(&self) -> (r: bool)
        requires
            self.wf(),
        ensures
            r == (self.offset_value_spec() < 0),
    {
        proof {
            if self.offset_value_spec() < 0 {
                lemma_some_component_negative(self.offset_value_spec());
            } else {
                lemma_sign_split(self.offset_value_spec(), 60);
                lemma_sign_split(sign_split_spec(self.offset_value_spec(), 60).0, 60);
            }
        }
        self.hours() < 0 || self.minutes() < 0 || self.seconds() < 0
    }

    /// The whole hours of the shift, carrying the offset's sign.
    pub fn hours(&self) -> (r: i8)
        requires
            self.wf(),
        ensures
            r == sign_split_spec(sign_split_spec(self.offset_value_spec(), 60).0, 60).0,
    {
        match self.offset_seconds {
            Some(s) => {
                proof {
                    lemma_sign_split(s as int, 60);
                    lemma_sign_split(sign_split_spec(s as int, 60).0, 60);
                }
                (s / 60 / 60) as i8
            },
            None => 0,
        }
    }

    /// The whole minutes of the shift past the hours, carrying the
    /// offset's sign.
    pub fn minutes(&self) -> (r: i8)
        requires
            self.wf(),
        ensures
            r == sign_split_spec(sign_split_spec(self.offset_value_spec(), 60).0, 60).1,
    {
        match self.offset_seconds {
            Some(s) => {
                proof {
                    lemma_sign_split(s as int, 60);
                    lemma_sign_split(sign_split_spec(s as int, 60).0, 60);
                }
                (s / 60 % 60) as i8
            },
            None => 0,
        }
    }

    /// The leftover seconds of the shift, carrying the offset's sign.
    pub fn seconds(&self) -> (r: i8)
        requires
            self.wf(),
        ensures
            r == sign_split_spec(self.offset_value_spec(), 60).1,
    {
        match self.offset_seconds {
            Some(s) => {
                proof {
                    lemma_sign_split(s as int, 60);
                }
                (s % 60) as i8
            },
            None => 0,
        }
    }
}

/// Truncating division and remainder, as Rust's own operators compute
/// them: the quotient rounds towards zero and the remainder keeps the
/// dividend's sign.
pub open spec fn sign_split_spec(value: int, unit: int) -> (int, int) {
    if value >= 0 {
        (value / unit, value % unit)
    } else {
        (-((-value) / unit), -((-value) % unit))
    }
}

proof fn lemma_sign_split(value: int, unit: int)
    requires
        unit > 0,
    ensures
        value == sign_split_spec(value, unit).0 * unit + sign_split_spec(value, unit).1,
        -unit < sign_split_spec(value, unit).1 < unit,
        value >= 0 ==> sign_split_spec(value, unit).0 >= 0 && sign_split_spec(value, unit).1 >= 0,
        value < 0 ==> sign_split_spec(value, unit).0 <= 0 && sign_split_spec(value, unit).1 <= 0,
{
    let q = sign_split_spec(value, unit).0;
    let r = sign_split_spec(value, unit).1;
    if value >= 0 {
        lemma_fundamental_div_mod(value, unit);
        assert(q * unit + r == value) by (nonlinear_arith)
            requires
                value == unit * (value / unit) + value % unit,
                q == value / unit,
                r == value % unit,
        ;
    } else {
        lemma_fundamental_div_mod(-value, unit);
        assert(q * unit + r == value) by (nonlinear_arith)
            requires
                -value == unit * ((-value) / unit) + (-value) % unit,
                q == -((-value) / unit),
                r == -((-value) % unit),
        ;
    }
}

/// A strictly negative offset shows its sign in at least one of its
/// three display components.
proof fn lemma_some_component_negative(value: int)
    requires
        value < 0,
    ensures
        sign_split_spec(sign_split_spec(value, 60).0, 60).0 < 0 || sign_split_spec(
            sign_split_spec(value, 60).0,
            60,
        ).1 < 0 || sign_split_spec(value, 60).1 < 0,
{
    lemma_sign_split(value, 60);
    let q = sign_split_spec(value, 60).0;
    lemma_sign_split(q, 60);
    if sign_split_spec(value, 60).1 == 0 {
        // The seconds part vanishes only when the offset is a whole
        // number of minutes, which the minute or hour part then carries.
        assert(q * 60 == value);
        assert(q < 0) by (nonlinear_arith)
            requires
                q * 60 == value,
                value < 0,
        ;
        if sign_split_spec(q, 60).1 == 0 {
            assert(sign_split_spec(q, 60).0 * 60 == q);
            assert(sign_split_spec(q, 60).0 < 0) by (nonlinear_arith)
                requires
                    sign_split_spec(q, 60).0 * 60 == q,
                    q < 0,
            ;
        }
    }
}

/// A local datetime paired with the fixed offset it is displayed in.
#[derive(PartialEq, Debug, Clone, Copy)]
pub struct DateTime {
    pub local: local::DateTime,
    pub offset: Offset,
}

} // verus!
