//! Instants, as the attributes of a profile and the rule cache carry them.

use vstd::prelude::*;

verus! {

/// An instant in UTC: the seconds since 1970-01-01T00:00:00Z, leap seconds not
/// counted, and the nanoseconds since that second began.
#[derive(Clone, Copy, Debug, PartialEq, Eq, Structural, PartialOrd, Ord, Hash)]
pub struct Timestamp {
    pub secs: i64,
    pub nanos: u32,
}

/// Reads the system clock through `chrono::Utc::now` and hands the instant out
/// as the seconds and nanoseconds that `DateTime::timestamp` and
/// `DateTime::timestamp_subsec_nanos` give for it. Nothing is claimed of the
/// instant. `Utc::now` panics where the clock stands before 1970.
#[verifier::external_body]
fn utc_now() -> Timestamp {
    let now = chrono::Utc::now();
    Timestamp { secs: now.timestamp(), nanos: now.timestamp_subsec_nanos() }
}

impl Timestamp {
    /// Whether `self` is strictly earlier than `other`.
    pub open spec fn is_before(self, other: Timestamp) -> bool {
        self.secs < other.secs || (self.secs == other.secs && self.nanos < other.nanos)
    }

    /// The instant `secs` seconds after `self`, or the last second that can be
    /// written where that one cannot.
    pub open spec fn after_seconds(self, secs: nat) -> Timestamp {
        Timestamp {
            secs: if self.secs + secs > i64::MAX {
                i64::MAX
            } else {
                (self.secs + secs) as i64
            },
            nanos: self.nanos,
        }
    }

    /// The instant of the given seconds and nanoseconds.
    pub fn new(secs: i64, nanos: u32) -> (t: Timestamp)
        ensures
            t == (Timestamp { secs, nanos }),
    {
        Timestamp { secs, nanos }
    }

    /// The present instant, by the system clock.
    pub fn now() -> Timestamp {
        utc_now()
    }

    /// Whether `self` is strictly earlier than `other`.
    pub fn before(&self, other: &Timestamp) -> (earlier: bool)
        ensures
            earlier == self.is_before(*other),
    {
        self.secs < other.secs || (self.secs == other.secs && self.nanos < other.nanos)
    }

    /// The instant `secs` seconds after `self`, saturating at the last second
    /// that can be written.
    pub fn plus_seconds(&self, secs: u64) -> (later: Timestamp)
        ensures
            later == self.after_seconds(secs as nat),
    {
        let total: i128 = self.secs as i128 + secs as i128;
        let secs: i64 = if total > i64::MAX as i128 {
            i64::MAX
        } else {
            total as i64
        };
        Timestamp { secs, nanos: self.nanos }
    }

    /// No instant is before itself, and of two different instants exactly one
    /// is before the other.
    pub proof fn lemma_before_is_a_strict_total_order(a: Timestamp, b: Timestamp, c: Timestamp)
        ensures
            !a.is_before(a),
            a.is_before(b) && b.is_before(c) ==> a.is_before(c),
            a != b ==> (a.is_before(b) <==> !b.is_before(a)),
    {
    }
}

impl Default for Timestamp {
    /// The first instant of 1970.
    fn default() -> (t: Timestamp)
        ensures
            t == (Timestamp { secs: 0, nanos: 0 }),
    {
        Timestamp { secs: 0, nanos: 0 }
    }
}

} // verus!
