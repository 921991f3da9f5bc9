//! Clock values: truncated wall-clock timestamps and monotonic local
//! instants.
//!
//! Nothing in this crate reads a clock. Callers sample their clocks and pass
//! the readings in, which keeps every operation a function over values.

use vstd::prelude::*;

verus! {

/// An unsigned 32-bit count of seconds since the Unix epoch.
///
/// Used for times that cross the network: the claimed last-seen time gossiped
/// by a remote peer, and the local wall-clock time at which a message was
/// received.
#[derive(Copy, Clone, Debug, PartialEq, Eq, PartialOrd, Ord, Structural)]
pub struct DateTime32 {
    pub timestamp: u32,
}

/// A width-32 duration: an unsigned count of whole seconds.
#[derive(Copy, Clone, Debug, PartialEq, Eq, PartialOrd, Ord, Structural)]
pub struct Duration32 {
    pub seconds: u32,
}

/// A monotonic local clock reading, in milliseconds since an arbitrary local
/// origin.
///
/// Used for `last_attempt` and `last_failure`. Instants are local bookkeeping
/// only: they are never serialized and never sent to a peer.
#[derive(Copy, Clone, Debug, PartialEq, Eq, PartialOrd, Ord, Structural)]
pub struct LocalInstant {
    pub millis: u64,
}

impl DateTime32 {
    /// The seconds elapsed from this timestamp to `now`, saturating to zero
    /// when this timestamp lies in the future (clock skew).
    pub open spec fn saturating_elapsed_spec(self, now: DateTime32) -> int {
        if now.timestamp >= self.timestamp {
            now.timestamp - self.timestamp
        } else {
            0
        }
    }

    /// The seconds elapsed from this timestamp to `now`, saturating to zero
    /// when this timestamp lies in the future.
    pub fn saturating_elapsed(&self, now: DateTime32) -> (r: Duration32)
        ensures
            r.seconds == self.saturating_elapsed_spec(now),
    {
        if now.timestamp >= self.timestamp {
            Duration32 { seconds: now.timestamp - self.timestamp }
        } else {
            Duration32 { seconds: 0 }
        }
    }

    /// This timestamp moved `duration` back, or `None` on underflow.
    pub fn checked_sub(&self, duration: Duration32) -> (r: Option<DateTime32>)
        ensures
            self.timestamp >= duration.seconds ==> r == Some(
                DateTime32 { timestamp: (self.timestamp - duration.seconds) as u32 },
            ),
            self.timestamp < duration.seconds ==> r is None,
    {
        if self.timestamp >= duration.seconds {
            Some(DateTime32 { timestamp: self.timestamp - duration.seconds })
        } else {
            None
        }
    }

    /// The raw seconds-since-epoch value.
    pub fn timestamp(&self) -> (r: u32)
        ensures
            r == self.timestamp,
    {
        self.timestamp
    }
}

impl LocalInstant {
    /// The milliseconds elapsed from this instant to `now`, saturating to
    /// zero when this instant lies in the future (possible only with
    /// synthetic readings, since the clock is monotonic).
    pub open spec fn saturating_elapsed_spec(self, now: LocalInstant) -> int {
        if now.millis >= self.millis {
            now.millis - self.millis
        } else {
            0
        }
    }

    /// The milliseconds elapsed from this instant to `now`, saturating to
    /// zero when this instant lies in the future.
    pub fn saturating_elapsed_millis(&self, now: LocalInstant) -> (r: u64)
        ensures
            r == self.saturating_elapsed_spec(now),
    {
        if now.millis >= self.millis {
            now.millis - self.millis
        } else {
            0
        }
    }
}

} // verus!
