//! Points on the UTC time line and their order.

use vstd::prelude::*;

verus! {

/// The mathematical model of a point in time: whole seconds since the start of
/// 1970 (UTC) and the nanoseconds that have passed since that second began.
pub struct Instant {
    pub secs: int,
    pub nanos: int,
}

impl Instant {
    /// `self` comes strictly before `other`: by the second first, and within one
    /// second by the nanoseconds.
    ///
    /// The nanoseconds of a leap second run from 1,000,000,000 up, so such an
    /// instant still lies before every instant of the following second.
    pub open spec fn is_before(self, other: Instant) -> bool {
        self.secs < other.secs || (self.secs == other.secs && self.nanos < other.nanos)
    }
}

/// A point in time as it is stored in a bid.
#[derive(Clone, Copy, Debug, PartialEq, Eq, Structural, PartialOrd, Ord, Hash)]
pub struct Timestamp {
    /// Whole seconds since 1970-01-01T00:00:00 UTC.
    pub secs: i64,
    /// Nanoseconds since the second began; 1,000,000,000 and more inside a
    /// leap second.
    pub nanos: u32,
}

impl View for Timestamp {
    type V = Instant;

    open spec fn view(&self) -> Instant {
        Instant { secs: self.secs as int, nanos: self.nanos as int }
    }
}

impl Timestamp {
    /// Whether this point in time lies strictly before `other`.
    pub fn is_before(&self, other: &Timestamp) -> (earlier: bool)
        ensures
            earlier == self@.is_before(other@),
    {
        self.secs < other.secs || (self.secs == other.secs && self.nanos < other.nanos)
    }
}

/// Two stored points in time have the same model only if they are the same
/// value: the model loses nothing.
pub proof fn lemma_view_is_injective(a: Timestamp, b: Timestamp)
    ensures
        a@ == b@ <==> a == b,
{
}

/// Of two instants exactly one holds: the first is earlier, they are the same,
/// or the second is earlier.
pub proof fn lemma_instants_are_totally_ordered(a: Instant, b: Instant)
    ensures
        a.is_before(b) || a == b || b.is_before(a),
        !(a.is_before(b) && a == b),
        !(a.is_before(b) && b.is_before(a)),
        !(a == b && b.is_before(a)),
{
}

/// "Earlier than" carries over: what is before an instant is before everything
/// that this instant is before.
pub proof fn lemma_is_before_is_transitive(a: Instant, b: Instant, c: Instant)
    requires
        a.is_before(b),
        b.is_before(c),
    ensures
        a.is_before(c),
{
}

} // verus!
