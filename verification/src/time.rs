//! Virtual time.
//!
//! Simulation time is counted in whole ticks; what a tick stands for is the
//! model's choice. The largest tick count is reserved for "never": the time
//! of a passivated component's next event.

use vstd::prelude::*;

verus! {

/// An instant of virtual time, or a span between two instants.
///
/// `ticks == u64::MAX` stands for +∞. Instants are ordered by their ticks, so
/// +∞ is later than every finite instant.
#[derive(Clone, Copy, Debug, PartialEq, Eq, PartialOrd, Ord, Hash, Structural)]
pub struct Time {
    pub ticks: u64,
}

impl Time {
    /// The instant `ticks` ticks after the origin (+∞ for `u64::MAX`).
    pub fn new(ticks: u64) -> (t: Time)
        ensures
            t.ticks == ticks,
    {
        Time { ticks }
    }

    /// The origin of virtual time, and the empty span.
    pub fn zero() -> (t: Time)
        ensures
            t.ticks == 0,
    {
        Time { ticks: 0 }
    }

    /// +∞: the instant that is never reached.
    pub fn infinity() -> (t: Time)
        ensures
            t.is_infinite(),
    {
        Time { ticks: u64::MAX }
    }

    /// Whether `self` is +∞.
    pub open spec fn spec_is_infinite(self) -> bool {
        self.ticks == u64::MAX
    }

    /// Whether `self` is +∞.
    #[verifier::when_used_as_spec(spec_is_infinite)]
    pub fn is_infinite(self) -> (b: bool)
        ensures
            b == self.spec_is_infinite(),
    {
        self.ticks == u64::MAX
    }

    /// Whether `self` is before +∞.
    pub open spec fn spec_is_finite(self) -> bool {
        self.ticks < u64::MAX
    }

    /// Whether `self` is before +∞.
    #[verifier::when_used_as_spec(spec_is_finite)]
    pub fn is_finite(self) -> (b: bool)
        ensures
            b == self.spec_is_finite(),
    {
        self.ticks < u64::MAX
    }

    /// `self + span` over ℕ ∪ {∞}: a sum that does not fit below +∞ is +∞.
    pub open spec fn spec_plus(self, span: Time) -> Time {
        if self.ticks + span.ticks >= u64::MAX {
            Time { ticks: u64::MAX }
        } else {
            Time { ticks: (self.ticks + span.ticks) as u64 }
        }
    }

    /// The instant `span` after `self`.
    #[verifier::when_used_as_spec(spec_plus)]
    pub fn plus(self, span: Time) -> (t: Time)
        ensures
            t == self.spec_plus(span),
    {
        if span.ticks >= u64::MAX - self.ticks {
            Time { ticks: u64::MAX }
        } else {
            Time { ticks: self.ticks + span.ticks }
        }
    }

    /// `self - span` over ℕ ∪ {∞}: +∞ less anything is +∞, and a span that
    /// is not shorter than `self` leaves nothing.
    pub open spec fn spec_minus(self, span: Time) -> Time {
        if self.ticks == u64::MAX {
            self
        } else if span.ticks >= self.ticks {
            Time { ticks: 0 }
        } else {
            Time { ticks: (self.ticks - span.ticks) as u64 }
        }
    }

    /// What is left of the span `self` after `span`; for two instants, the
    /// time elapsed at `self` since `span`.
    #[verifier::when_used_as_spec(spec_minus)]
    pub fn minus(self, span: Time) -> (e: Time)
        ensures
            e == self.spec_minus(span),
    {
        if self.ticks == u64::MAX {
            self
        } else if span.ticks >= self.ticks {
            Time { ticks: 0 }
        } else {
            Time { ticks: self.ticks - span.ticks }
        }
    }

    /// The earlier of two instants.
    pub open spec fn spec_min(self, other: Time) -> Time {
        if other.ticks < self.ticks {
            other
        } else {
            self
        }
    }

    /// The earlier of two instants.
    #[verifier::when_used_as_spec(spec_min)]
    pub fn min(self, other: Time) -> (t: Time)
        ensures
            t == self.spec_min(other),
    {
        if other.ticks < self.ticks {
            other
        } else {
            self
        }
    }

    /// Whether `self` is at or after `event`.
    pub open spec fn spec_reached(self, event: Time) -> bool {
        self.ticks >= event.ticks
    }

    /// Whether an event scheduled for `event` is due at `self`. An event
    /// scheduled for +∞ is due only at +∞.
    #[verifier::when_used_as_spec(spec_reached)]
    pub fn reached(self, event: Time) -> (b: bool)
        ensures
            b == self.spec_reached(event),
    {
        self.ticks >= event.ticks
    }
}

/// Adding a span never moves an instant back, and the time elapsed between
/// two instants leads from the earlier to the later.
pub proof fn law_plus_minus(t: Time, earlier: Time)
    requires
        earlier.ticks <= t.ticks,
    ensures
        earlier.plus(t.minus(earlier)) == t,
        t.plus(earlier).ticks >= t.ticks,
{
}

} // verus!
