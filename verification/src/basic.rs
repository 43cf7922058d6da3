//! Instants on the timeline and durations between them.

use vstd::prelude::*;

verus! {

/// An exact point on the timeline: a count of seconds since the Unix
/// epoch, with a millisecond part between 0 and 999.
#[derive(PartialEq, Eq, Structural, Debug, Clone, Copy)]
pub struct Instant {
    seconds: i64,
    milliseconds: i16,
}

/// A span of time: a count of seconds, with a millisecond part between 0
/// and 999. A negative span keeps its millisecond part non-negative, so
/// the value is always `seconds` plus a fraction.
#[derive(PartialEq, Eq, Structural, Debug, Clone, Copy)]
pub struct Duration {
    seconds: i64,
    milliseconds: i16,
}

impl Instant {
    /// The millisecond part stays below one second.
    pub open spec fn wf(self) -> bool {
        0 <= self.milliseconds_spec() < 1000
    }

    pub closed spec fn seconds_spec(self) -> int {
        self.seconds as int
    }

    pub closed spec fn milliseconds_spec(self) -> int {
        self.milliseconds as int
    }

    /// An instant some number of whole seconds after the Unix epoch.
    pub fn at(seconds_since_1970_epoch: i64) -> (r: Instant)
        ensures
            r.wf(),
            r.seconds_spec() == seconds_since_1970_epoch,
            r.milliseconds_spec() == 0,
    {
        Instant::at_ms(seconds_since_1970_epoch, 0)
    }

    /// An instant some number of seconds and milliseconds after the Unix
    /// epoch.
    pub fn at_ms(seconds_since_1970_epoch: i64, millisecond_of_second: i16) -> (r: Instant)
        requires
            0 <= millisecond_of_second < 1000,
        ensures
            r.wf(),
            r.seconds_spec() == seconds_since_1970_epoch,
            r.milliseconds_spec() == millisecond_of_second,
    {
        Instant { seconds: seconds_since_1970_epoch, milliseconds: millisecond_of_second }
    }

    /// The instant at the Unix epoch itself.
    pub fn at_epoch() -> (r: Instant)
        ensures
            r.wf(),
            r.seconds_spec() == 0,
            r.milliseconds_spec() == 0,
    {
        Instant::at(0)
    }

    /// The number of whole seconds since the Unix epoch.
    pub fn seconds(&self) -> (r: i64)
        ensures
            r == self.seconds_spec(),
    {
        self.seconds
    }

    /// The milliseconds past the last whole second.
    pub fn milliseconds(&self) -> (r: i16)
        ensures
            r == self.milliseconds_spec(),
    {
        self.milliseconds
    }
}

impl Duration {
    /// The millisecond part stays below one second.
    pub open spec fn wf(self) -> bool {
        0 <= self.milliseconds_spec() < 1000
    }

    pub closed spec fn seconds_spec(self) -> int {
        self.seconds as int
    }

    pub closed spec fn milliseconds_spec(self) -> int {
        self.milliseconds as int
    }

    /// The empty span.
    pub fn zero() -> (r: Duration)
        ensures
            r.wf(),
            r.seconds_spec() == 0,
            r.milliseconds_spec() == 0,
    {
        Duration { seconds: 0, milliseconds: 0 }
    }

    /// A span of whole seconds.
    pub fn of(seconds: i64) -> (r: Duration)
        ensures
            r.wf(),
            r.seconds_spec() == seconds,
            r.milliseconds_spec() == 0,
    {
        Duration { seconds, milliseconds: 0 }
    }

    /// A span of seconds and milliseconds.
    pub fn of_ms(seconds: i64, milliseconds: i16) -> (r: Duration)
        requires
            0 <= milliseconds < 1000,
        ensures
            r.wf(),
            r.seconds_spec() == seconds,
            r.milliseconds_spec() == milliseconds,
    {
        Duration { seconds, milliseconds }
    }

    /// The two parts of the span, seconds first.
    pub fn lengths(&self) -> (r: (i64, i16))
        ensures
            r.0 == self.seconds_spec(),
            r.1 == self.milliseconds_spec(),
    {
        (self.seconds, self.milliseconds)
    }
}

impl core::ops::Add<Duration> for Instant {
    type Output = Instant;

    /// Moves the instant later by the duration, carrying the millisecond
    /// parts into a whole second when they overflow.
    fn add(self, duration: Duration) -> (r: Instant)
        ensures
            r.wf(),
            r.seconds_spec() == self.seconds_spec() + duration.seconds_spec() + (
            if self.milliseconds_spec() + duration.milliseconds_spec() >= 1000 {
                1int
            } else {
                0int
            }),
            r.milliseconds_spec() == self.milliseconds_spec() + duration.milliseconds_spec() - (
            if self.milliseconds_spec() + duration.milliseconds_spec() >= 1000 {
                1000int
            } else {
                0int
            }),
    {
        let (s, ms) = duration.lengths();
        let mut seconds: i64 = self.seconds + s;
        let mut milliseconds: i16 = self.milliseconds + ms;
        if milliseconds >= 1000 {
            milliseconds -= 1000;
            seconds += 1;
        }
        Instant { seconds, milliseconds }
    }
}

impl vstd::std_specs::ops::AddSpecImpl<Duration> for Instant {
    open spec fn obeys_add_spec() -> bool {
        false
    }

    open spec fn add_req(self, rhs: Duration) -> bool {
        self.wf() && rhs.wf() && i64::MIN <= self.seconds_spec() + rhs.seconds_spec()
            && self.seconds_spec() + rhs.seconds_spec() + 1 <= i64::MAX
    }

    open spec fn add_spec(self, rhs: Duration) -> Instant {
        self
    }
}

impl core::ops::Sub<Duration> for Instant {
    type Output = Instant;

    /// Moves the instant earlier by the duration, borrowing a whole
    /// second when the millisecond parts cross zero.
    fn sub(self, duration: Duration) -> (r: Instant)
        ensures
            r.wf(),
            r.seconds_spec() == self.seconds_spec() - duration.seconds_spec() - (
            if self.milliseconds_spec() - duration.milliseconds_spec() < 0 {
                1int
            } else {
                0int
            }),
            r.milliseconds_spec() == self.milliseconds_spec() - duration.milliseconds_spec() + (
            if self.milliseconds_spec() - duration.milliseconds_spec() < 0 {
                1000int
            } else {
                0int
            }),
    {
        let (s, ms) = duration.lengths();
        let mut seconds: i64 = self.seconds - s;
        let mut milliseconds: i16 = self.milliseconds - ms;
        if milliseconds < 0 {
            milliseconds += 1000;
            seconds -= 1;
        }
        Instant { seconds, milliseconds }
    }
}

impl vstd::std_specs::ops::SubSpecImpl<Duration> for Instant {
    open spec fn obeys_sub_spec() -> bool {
        false
    }

    open spec fn sub_req(self, rhs: Duration) -> bool {
        self.wf() && rhs.wf() && i64::MIN <= self.seconds_spec() - rhs.seconds_spec() - 1
            && self.seconds_spec() - rhs.seconds_spec() <= i64::MAX
    }

    open spec fn sub_spec(self, rhs: Duration) -> Instant {
        self
    }
}

} // verus!
