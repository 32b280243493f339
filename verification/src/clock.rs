//! Wall-clock time as plain numbers.
use vstd::prelude::*;

verus! {

/// A moment, as seconds and nanoseconds since the Unix epoch.
#[derive(Debug, Clone, Copy, PartialEq, Eq, Structural)]
pub struct Timestamp {
    pub secs: u64,
    pub nanos: u32,
}

/// `a` is not later than `b`.
pub open spec fn not_later(a: Timestamp, b: Timestamp) -> bool {
    a.secs < b.secs || (a.secs == b.secs && a.nanos <= b.nanos)
}

impl Timestamp {
    /// Whether `self` is not later than `other`.
    pub fn not_later_than(&self, other: &Timestamp) -> (r: bool)
        ensures
            r == not_later(*self, *other),
    {
        self.secs < other.secs || (self.secs == other.secs && self.nanos <= other.nanos)
    }
}

/// The current time of the system clock. Nothing is promised of the value:
/// it is whatever the clock reads, and a clock set before 1970 reads as the
/// epoch itself.
#[verifier::external_body]
pub(crate) fn now() -> (t: Timestamp) {
    let d = std::time::SystemTime::now().duration_since(std::time::UNIX_EPOCH).unwrap_or_default();
    Timestamp { secs: d.as_secs(), nanos: d.subsec_nanos() }
}

} // verus!
