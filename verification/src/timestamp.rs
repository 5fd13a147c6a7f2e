//! Points in time, counted in nanoseconds from the Unix epoch.

use vstd::prelude::*;

verus! {

/// Nanoseconds in one second.
pub const NANOS_PER_SEC: u32 = 1_000_000_000;

/// A point in time: whole seconds from the Unix epoch (negative before it)
/// and the nanoseconds that have passed within that second.
#[derive(Clone, Copy, Debug, PartialEq, Eq, Structural)]
pub struct Timestamp {
    secs: i64,
    nanos: u32,
}

impl Timestamp {
    #[verifier::type_invariant]
    spec fn well_formed(self) -> bool {
        self.nanos < NANOS_PER_SEC
    }

    /// The whole seconds since the epoch, rounded towards the past.
    pub closed spec fn spec_secs(self) -> int {
        self.secs as int
    }

    /// The nanoseconds within the second.
    pub closed spec fn spec_subsec_nanos(self) -> int {
        self.nanos as int
    }

    /// The distance from the epoch in nanoseconds; negative before the epoch.
    pub open spec fn total_nanos(self) -> int {
        self.spec_secs() * 1_000_000_000 + self.spec_subsec_nanos()
    }

    /// A timestamp from its two parts; `None` when `nanos` is not below one second.
    pub fn new(secs: i64, nanos: u32) -> (r: Option<Timestamp>)
        ensures
            r is Some <==> nanos < NANOS_PER_SEC,
            r matches Some(t) ==> t.spec_secs() == secs && t.spec_subsec_nanos() == nanos,
            r matches Some(t) ==> t.total_nanos() == secs * 1_000_000_000 + nanos,
    {
        if nanos < NANOS_PER_SEC {
            Some(Timestamp { secs, nanos })
        } else {
            None
        }
    }

    /// The point `secs` seconds and `nanos` nanoseconds after the epoch.
    /// `None` when `nanos` is not below one second or the seconds do not fit.
    pub fn after_epoch(secs: u64, nanos: u32) -> (r: Option<Timestamp>)
        ensures
            r is Some <==> nanos < NANOS_PER_SEC && secs <= i64::MAX,
            r matches Some(t) ==> t.spec_secs() == secs && t.spec_subsec_nanos() == nanos,
            r matches Some(t) ==> t.total_nanos() == secs * 1_000_000_000 + nanos,
    {
        if nanos < NANOS_PER_SEC && secs <= 0x7fff_ffff_ffff_ffff {
            Some(Timestamp { secs: secs as i64, nanos })
        } else {
            None
        }
    }

    /// The point `secs` seconds and `nanos` nanoseconds before the epoch.
    /// `None` when `nanos` is not below one second or the point lies before
    /// the earliest second that can be held.
    pub fn before_epoch(secs: u64, nanos: u32) -> (r: Option<Timestamp>)
        ensures
            r is Some <==> nanos < NANOS_PER_SEC && -(secs * 1_000_000_000 + nanos)
                >= i64::MIN * 1_000_000_000,
            r matches Some(t) ==> t.total_nanos() == -(secs * 1_000_000_000 + nanos),
            r matches Some(t) ==> 0 <= t.spec_subsec_nanos() < NANOS_PER_SEC,
    {
        if nanos >= NANOS_PER_SEC {
            None
        } else if nanos == 0 {
            if secs <= 0x7fff_ffff_ffff_ffff {
                Some(Timestamp { secs: -(secs as i64), nanos: 0 })
            } else if secs == 0x8000_0000_0000_0000 {
                Some(Timestamp { secs: i64::MIN, nanos: 0 })
            } else {
                None
            }
        } else if secs <= 0x7fff_ffff_ffff_ffff {
            Some(Timestamp { secs: -(secs as i64) - 1, nanos: NANOS_PER_SEC - nanos })
        } else {
            None
        }
    }

    /// The whole seconds since the epoch, rounded towards the past.
    pub fn secs(&self) -> (r: i64)
        ensures
            r == self.spec_secs(),
    {
        self.secs
    }

    /// The nanoseconds within the second, always below one second.
    pub fn subsec_nanos(&self) -> (r: u32)
        ensures
            r == self.spec_subsec_nanos(),
            r < NANOS_PER_SEC,
    {
        proof {
            use_type_invariant(self);
        }
        self.nanos
    }

    /// Whether `self` lies strictly after `other`.
    pub fn is_later_than(&self, other: &Timestamp) -> (b: bool)
        ensures
            b == (self.total_nanos() > other.total_nanos()),
    {
        proof {
            use_type_invariant(self);
            use_type_invariant(other);
        }
        self.secs > other.secs || (self.secs == other.secs && self.nanos > other.nanos)
    }

    /// A timestamp is its two parts: two with the same parts are the same.
    pub proof fn lemma_parts_decide(self, other: Timestamp)
        requires
            self.spec_secs() == other.spec_secs(),
            self.spec_subsec_nanos() == other.spec_subsec_nanos(),
        ensures
            self == other,
    {
    }

    /// Two points with nanoseconds below one second that lie equally far
    /// from the epoch have the same parts.
    pub proof fn lemma_distance_decides(self, other: Timestamp)
        requires
            0 <= self.spec_subsec_nanos() < NANOS_PER_SEC,
            0 <= other.spec_subsec_nanos() < NANOS_PER_SEC,
            self.total_nanos() == other.total_nanos(),
        ensures
            self == other,
    {
    }
}

} // verus!
