//! Points in time as seconds and nanoseconds since the Unix epoch, and the
//! wall clock that yields them.

use vstd::prelude::*;

verus! {

/// Nanoseconds in one second.
pub const NANOS_PER_SECOND: i32 = 1_000_000_000;

/// A point in time: whole seconds since the Unix epoch (negative before it)
/// and a fraction of a second, counted forward in nanoseconds.
#[derive(Clone, Copy, Debug, PartialEq, Eq, Structural)]
pub struct Timestamp {
    pub seconds: i64,
    pub nanos: i32,
}

impl Timestamp {
    /// The fraction lies within one second.
    pub open spec fn is_normal(self) -> bool {
        0 <= self.nanos < NANOS_PER_SECOND
    }

    /// Nanoseconds since the Unix epoch.
    pub open spec fn instant(self) -> int {
        self.seconds * NANOS_PER_SECOND + self.nanos
    }

    /// Nanoseconds since the Unix epoch.
    pub fn nanos_since_epoch(self) -> (nanos: i128)
        ensures
            nanos == self.instant(),
    {
        let seconds: i128 = self.seconds as i128;
        let fraction: i128 = self.nanos as i128;
        seconds * 1_000_000_000 + fraction
    }

    /// The point in time `seconds` later, or `None` where its whole seconds
    /// no longer fit.
    pub fn checked_plus_seconds(self, seconds: u64) -> (later: Option<Timestamp>)
        ensures
            later is Some <==> self.seconds + seconds <= i64::MAX,
            later matches Some(time) ==> {
                &&& time.seconds == self.seconds + seconds
                &&& time.nanos == self.nanos
                &&& time.instant() == self.instant() + seconds * NANOS_PER_SECOND
            },
    {
        let sum: i128 = self.seconds as i128 + seconds as i128;
        if sum <= i64::MAX as i128 {
            Some(Timestamp { seconds: sum as i64, nanos: self.nanos })
        } else {
            None
        }
    }
}

/// Reads the system clock with `std::time::SystemTime::now` and converts the
/// reading with `prost_types::Timestamp::from`. The contract claims what
/// that conversion yields for every reading: a fraction of 0 to 999,999,999
/// nanoseconds that counts forward, also before the epoch. Which time comes
/// out is not claimed; two readings may even go backwards. The conversion
/// unwraps a range check on the whole seconds, which a clock reading within
/// 292 billion years of the epoch passes.
#[verifier::external_body]
pub(crate) fn wall_clock() -> (now: Timestamp)
    ensures
        now.is_normal(),
{
    let reading = prost_types::Timestamp::from(std::time::SystemTime::now());
    Timestamp { seconds: reading.seconds, nanos: reading.nanos }
}

} // verus!
