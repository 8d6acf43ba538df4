//! Plain time values.
//!
//! Sessions carry absolute expiry instants and the renewal policy works with
//! relative durations. Both are kept as signed millisecond counts so that all
//! expiry logic is ordinary integer arithmetic.

use vstd::prelude::*;

verus! {

/// An absolute instant, as milliseconds relative to the Unix epoch.
#[derive(Debug, Clone, Copy, PartialEq, Eq, PartialOrd, Ord, Hash, Structural)]
pub struct Timestamp {
    /// Milliseconds since the Unix epoch; negative instants lie before it.
    pub millis: i64,
}

/// A span of time, as a signed number of milliseconds.
#[derive(Debug, Clone, Copy, PartialEq, Eq, PartialOrd, Ord, Hash, Structural)]
pub struct TimeDelta {
    /// The length of the span in milliseconds.
    pub millis: i64,
}

impl Timestamp {
    /// The instant `millis` milliseconds after (or, negative, before) the
    /// Unix epoch.
    pub fn from_millis(millis: i64) -> (r: Timestamp)
        ensures
            r.millis == millis,
    {
        Timestamp { millis }
    }

    /// The instant `delta` later than `self`, clamped to the representable
    /// range.
    pub open spec fn spec_plus(self, delta: TimeDelta) -> Timestamp {
        Timestamp { millis: clamp_millis(self.millis + delta.millis) }
    }

    /// The instant `delta` later than `self`, clamped to the representable
    /// range.
    pub fn plus(self, delta: TimeDelta) -> (r: Timestamp)
        ensures
            r == self.spec_plus(delta),
    {
        let millis: i64 = if delta.millis >= 0 {
            if self.millis > i64::MAX - delta.millis {
                i64::MAX
            } else {
                self.millis + delta.millis
            }
        } else {
            if self.millis < i64::MIN - delta.millis {
                i64::MIN
            } else {
                self.millis + delta.millis
            }
        };
        Timestamp { millis }
    }
}

impl TimeDelta {
    /// The span of `millis` milliseconds.
    pub fn from_millis(millis: i64) -> (r: TimeDelta)
        ensures
            r.millis == millis,
    {
        TimeDelta { millis }
    }
}

/// Relies on chrono's `Utc::now` and `DateTime::timestamp_millis`: the
/// current wall-clock instant. Nothing is assumed about the value.
#[verifier::external_body]
pub(crate) fn now_timestamp() -> Timestamp {
    Timestamp { millis: chrono::Utc::now().timestamp_millis() }
}

/// `v` clamped to the range of `i64`.
pub open spec fn clamp_millis(v: int) -> i64 {
    if v > i64::MAX {
        i64::MAX
    } else if v < i64::MIN {
        i64::MIN
    } else {
        v as i64
    }
}

} // verus!
