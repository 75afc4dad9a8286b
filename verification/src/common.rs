//! Types shared by the clock and its users.

use core::cmp::Ordering;
use vstd::prelude::*;

verus! {

/// A point in time: the microseconds that have passed since the clock was
/// started.
///
/// Instants are ordered by their tick count alone. Nothing wraps: an instant
/// with a larger count is always the later one.
#[derive(Copy, Clone, PartialEq, Eq, Structural, Debug)]
pub struct Instant {
    ticks: u64,
}

impl Instant {
    /// The tick count of the instant.
    pub closed spec fn spec_ticks(&self) -> u64 {
        self.ticks
    }

    /// The instant `ticks` microseconds after the start of the clock.
    pub fn from_ticks(ticks: u64) -> (instant: Self)
        ensures
            instant.ticks() == ticks,
    {
        Instant { ticks }
    }

    /// The microseconds between the start of the clock and this instant.
    #[verifier::when_used_as_spec(spec_ticks)]
    pub fn ticks(&self) -> (ticks: u64)
        ensures
            ticks == self.spec_ticks(),
    {
        self.ticks
    }

    /// Two instants with the same tick count are the same instant.
    pub proof fn lemma_ticks_determine(a: Instant, b: Instant)
        requires
            a.ticks() == b.ticks(),
        ensures
            a == b,
    {
    }
}

impl PartialOrd for Instant {
    fn partial_cmp(&self, other: &Instant) -> (order: Option<Ordering>) {
        if self.ticks < other.ticks {
            Some(Ordering::Less)
        } else if self.ticks > other.ticks {
            Some(Ordering::Greater)
        } else {
            Some(Ordering::Equal)
        }
    }
}

impl vstd::std_specs::cmp::PartialOrdSpecImpl for Instant {
    open spec fn obeys_partial_cmp_spec() -> bool {
        true
    }

    open spec fn partial_cmp_spec(&self, other: &Instant) -> Option<Ordering> {
        if self.ticks() < other.ticks() {
            Some(Ordering::Less)
        } else if self.ticks() > other.ticks() {
            Some(Ordering::Greater)
        } else {
            Some(Ordering::Equal)
        }
    }
}

} // verus!
