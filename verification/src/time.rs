//! Wall-clock times of day.

use vstd::prelude::*;

verus! {

/// Seconds in one day.
pub const SECONDS_PER_DAY: u32 = 86_400;

/// Nanoseconds in one second.
pub const NANOS_PER_SECOND: u32 = 1_000_000_000;

/// A wall-clock time without a date.
///
/// `secs` counts whole seconds since midnight. `frac` counts nanoseconds
/// within that second; it may reach into a second thousand million to stand
/// for a leap second, and only in the last second of a minute.
#[derive(Clone, Copy, Debug, PartialEq, Eq, Hash, Structural)]
pub struct TimeOfDay {
    pub secs: u32,
    pub frac: u32,
}

/// Wraps `chrono::NaiveTime::from_hms_opt` and reads the seconds since
/// midnight off its result.
///
/// Trusted: chrono accepts exactly the hours below 24 with minutes and
/// seconds below 60, and counts the accepted time as
/// `hour * 3600 + min * 60 + sec` seconds with no fraction.
#[verifier::external_body]
fn seconds_from_hms(hour: u32, min: u32, sec: u32) -> (secs: Option<u32>)
    ensures
        hour < 24 && min < 60 && sec < 60 ==> secs == Some(
            (hour * 3600 + min * 60 + sec) as u32,
        ),
        hour >= 24 || min >= 60 || sec >= 60 ==> secs is None,
{
    match chrono::NaiveTime::from_hms_opt(hour, min, sec) {
        Some(time) => Some(chrono::Timelike::num_seconds_from_midnight(&time)),
        None => None,
    }
}

impl TimeOfDay {
    /// True when the fields describe a time that exists.
    pub open spec fn is_valid(self) -> bool {
        &&& self.secs < SECONDS_PER_DAY
        &&& self.frac < 2 * NANOS_PER_SECOND
        &&& self.frac >= NANOS_PER_SECOND ==> self.secs % 60 == 59
    }

    /// True when `hour:min:sec` names a time of day.
    pub open spec fn hms_in_range(hour: u32, min: u32, sec: u32) -> bool {
        hour < 24 && min < 60 && sec < 60
    }

    /// Seconds since midnight at `hour:min:sec`.
    pub open spec fn hms_seconds(hour: u32, min: u32, sec: u32) -> u32
        recommends
            Self::hms_in_range(hour, min, sec),
    {
        (hour * 3600 + min * 60 + sec) as u32
    }

    /// The time `hour:min:sec` on the second.
    pub open spec fn hms(hour: u32, min: u32, sec: u32) -> TimeOfDay
        recommends
            Self::hms_in_range(hour, min, sec),
    {
        TimeOfDay { secs: Self::hms_seconds(hour, min, sec), frac: 0 }
    }

    /// True when `self` is the same time as `other` or a later one.
    ///
    /// Times are ordered by their seconds, and within one second by their
    /// fraction.
    pub open spec fn at_or_after(self, other: TimeOfDay) -> bool {
        self.secs > other.secs || (self.secs == other.secs && self.frac >= other.frac)
    }

    /// The time `hour:min:sec`, or `None` when the hour is 24 or more or the
    /// minute or second is 60 or more.
    pub fn from_hms_opt(hour: u32, min: u32, sec: u32) -> (time: Option<TimeOfDay>)
        ensures
            Self::hms_in_range(hour, min, sec) ==> time == Some(Self::hms(hour, min, sec)),
            !Self::hms_in_range(hour, min, sec) ==> time is None,
            time matches Some(t) ==> t.is_valid(),
    {
        match seconds_from_hms(hour, min, sec) {
            Some(secs) => Some(TimeOfDay { secs, frac: 0 }),
            None => None,
        }
    }

    /// Compares two times of day: true when `self` is `other` or later.
    pub fn is_at_or_after(&self, other: &TimeOfDay) -> (later: bool)
        ensures
            later == self.at_or_after(*other),
    {
        self.secs > other.secs || (self.secs == other.secs && self.frac >= other.frac)
    }
}

} // verus!
