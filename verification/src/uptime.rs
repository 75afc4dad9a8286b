//! The uptime clock.
//!
//! A hardware countdown restarts once a second and a tick handler counts the
//! restarts. A reading combines that count with the position of the countdown
//! inside the running second. Both have to be sampled as one consistent
//! snapshot; taking that snapshot is up to the caller.

use crate::common::Instant;
use vstd::prelude::*;
use vstd::std_specs::cmp::PartialOrdIs;

verus! {

/// Microseconds in one period of the countdown.
pub const MICROS_PER_PERIOD: u64 = 1_000_000;

/// The microseconds in `ticks` units of `1 / denom` seconds, where the unit
/// is the millisecond (`denom` is a thousand) or the microsecond (`denom` is
/// a million).
pub open spec fn to_micros(ticks: u64, denom: u32) -> int {
    if denom == 1_000 {
        ticks * 1_000
    } else {
        ticks as int
    }
}

/// Adds a duration of `ticks` units of `1 / DENOM` seconds to the
/// microsecond tick count `start`, by `fugit`'s
/// `Instant::<u64, 1, 1_000_000>::checked_add_duration`.
///
/// This contract is taken on trust from `fugit`'s source. For a unit that
/// divides the second into a thousand or a million parts, `fugit` first
/// scales the duration to microseconds with a checked multiplication, and
/// answers `None` exactly when that product does not fit 64 bits. The sum
/// itself is formed with wrap-around and is never refused: telling a wrapped
/// sum from a true one is left to `Uptime::unwrapped`.
#[verifier::external_body]
fn checked_add_duration<const DENOM: u32>(start: u64, ticks: u64) -> (end: Option<u64>)
    requires
        DENOM == 1_000 || DENOM == 1_000_000,
    ensures
        end is Some <==> to_micros(ticks, DENOM) <= u64::MAX,
        end matches Some(sum) ==> sum == (start + to_micros(ticks, DENOM))
            % 0x1_0000_0000_0000_0000,
{
    let start = fugit::Instant::<u64, 1, 1_000_000>::from_ticks(start);
    let duration = fugit::Duration::<u64, 1, DENOM>::from_ticks(ticks);
    match start.checked_add_duration(duration) {
        Some(end) => Some(end.ticks()),
        None => None,
    }
}

/// A sum of two tick counts that was formed with wrap-around is at least its
/// first term exactly when it did not wrap, and is then the true sum.
proof fn lemma_wrapped_sum(start: u64, micros: int)
    requires
        0 <= micros <= u64::MAX,
    ensures
        (start + micros) % 0x1_0000_0000_0000_0000 >= start <==> start + micros <= u64::MAX,
        start + micros <= u64::MAX ==> (start + micros) % 0x1_0000_0000_0000_0000 == start
            + micros,
{
}

/// The uptime clock: the reload value of the countdown and the number of
/// periods that have been completed.
pub struct Uptime {
    reload: u32,
    reload_count: u32,
}

impl Uptime {
    /// The value from which the countdown restarts; a period lasts one tick
    /// more than this.
    pub closed spec fn spec_reload(&self) -> u32 {
        self.reload
    }

    /// The number of completed periods.
    pub closed spec fn spec_reload_count(&self) -> u32 {
        self.reload_count
    }

    /// The reading for a countdown that stands at `current`: a million
    /// microseconds for each completed period, and one for each tick that the
    /// countdown has gone through since it last restarted.
    pub open spec fn elapsed_us(&self, current: u32) -> int {
        self.reload_count() * 1_000_000 + (self.reload() - current)
    }

    /// The end of a delay of `micros` microseconds begun at tick count
    /// `start`, unless it lies beyond the range of an instant.
    pub open spec fn deadline(start: u64, micros: int) -> Option<u64> {
        if start + micros <= u64::MAX {
            Some((start + micros) as u64)
        } else {
            None
        }
    }

    /// A clock that has completed no period, for a time base that ticks
    /// `ticks_per_10ms + 1` times in ten milliseconds. The countdown is to
    /// restart once a second.
    pub fn new(ticks_per_10ms: u32) -> (clock: Self)
        requires
            (ticks_per_10ms + 1) * 100 - 1 <= u32::MAX,
        ensures
            clock.reload() == (ticks_per_10ms + 1) * 100 - 1,
            clock.reload_count() == 0,
    {
        Uptime { reload: (ticks_per_10ms + 1) * 100 - 1, reload_count: 0 }
    }

    /// A clock whose countdown restarts from `reload` and that has already
    /// completed `reload_count` periods.
    pub fn with_count(reload: u32, reload_count: u32) -> (clock: Self)
        ensures
            clock.reload() == reload,
            clock.reload_count() == reload_count,
    {
        Uptime { reload, reload_count }
    }

    /// The value to load the countdown with.
    #[verifier::when_used_as_spec(spec_reload)]
    pub fn reload(&self) -> (reload: u32)
        ensures
            reload == self.spec_reload(),
    {
        self.reload
    }

    /// The number of periods counted so far.
    #[verifier::when_used_as_spec(spec_reload_count)]
    pub fn reload_count(&self) -> (count: u32)
        ensures
            count == self.spec_reload_count(),
    {
        self.reload_count
    }

    /// Counts one completed period and returns the new count.
    ///
    /// Once the count has reached its largest value the clock refuses to go
    /// on: it returns `None` and stays as it is, rather than starting again
    /// from zero.
    pub fn tick(&mut self) -> (count: Option<u32>)
        ensures
            final(self).reload() == old(self).reload(),
            count is Some <==> old(self).reload_count() < u32::MAX,
            count matches Some(n) ==> n == old(self).reload_count() + 1,
            count matches Some(n) ==> final(self).reload_count() == n,
            count is None ==> final(self).reload_count() == old(self).reload_count(),
    {
        match self.reload_count.checked_add(1) {
            Some(n) => {
                self.reload_count = n;
                Some(n)
            },
            None => None,
        }
    }

    /// Microseconds since the clock was started, for a countdown that stands
    /// at `current`.
    pub fn get_us(&self, current: u32) -> (us: u64)
        requires
            current <= self.reload(),
        ensures
            us == self.elapsed_us(current),
    {
        let periods: u64 = self.reload_count as u64;
        let partial: u64 = (self.reload - current) as u64;
        periods * MICROS_PER_PERIOD + partial
    }

    /// The current instant, for a countdown that stands at `current`.
    pub fn get_instant(&self, current: u32) -> (now: Instant)
        requires
            current <= self.reload(),
        ensures
            now.ticks() == self.elapsed_us(current),
    {
        Instant::from_ticks(self.get_us(current))
    }

    /// The instant at which a delay of `us` microseconds that begins at
    /// `start` is over.
    ///
    /// `None` when that instant cannot be represented. The caller then has
    /// to stop: there is no instant to wait for.
    pub fn delay_us(start: Instant, us: u64) -> (end: Option<Instant>)
        ensures
            end is Some <==> Self::deadline(start.ticks(), us as int) is Some,
            end matches Some(instant) ==> Self::deadline(start.ticks(), us as int) == Some(
                instant.ticks(),
            ),
    {
        let sum = checked_add_duration::<1_000_000>(start.ticks(), us);
        proof {
            lemma_wrapped_sum(start.ticks(), us as int);
        }
        Self::unwrapped(start, sum)
    }

    /// The instant at which a delay of `ms` milliseconds that begins at
    /// `start` is over.
    ///
    /// `None` when that instant cannot be represented. The caller then has
    /// to stop: there is no instant to wait for.
    pub fn delay_ms(start: Instant, ms: u64) -> (end: Option<Instant>)
        ensures
            end is Some <==> Self::deadline(start.ticks(), ms * 1_000) is Some,
            end matches Some(instant) ==> Self::deadline(start.ticks(), ms * 1_000) == Some(
                instant.ticks(),
            ),
    {
        let sum = checked_add_duration::<1_000>(start.ticks(), ms);
        proof {
            if ms * 1_000 <= u64::MAX {
                lemma_wrapped_sum(start.ticks(), ms * 1_000);
            }
        }
        Self::unwrapped(start, sum)
    }

    /// Tells a sum that was formed with wrap-around from one that was not: a
    /// sum that has wrapped is smaller than what it started from.
    fn unwrapped(start: Instant, sum: Option<u64>) -> (end: Option<Instant>)
        ensures
            end is Some <==> sum is Some && sum.unwrap() >= start.ticks(),
            end matches Some(instant) ==> sum == Some(instant.ticks()),
    {
        match sum {
            Some(ticks) => if ticks >= start.ticks() {
                Some(Instant::from_ticks(ticks))
            } else {
                None
            },
            None => None,
        }
    }
}

impl Uptime {
    /// Readings never go backward. Of two snapshots of one clock, the later
    /// one has counted more periods, or as many with the countdown no higher;
    /// its reading is then no smaller.
    ///
    /// This needs a period of at most a million ticks: with a longer one the
    /// reading would fall back whenever a period ends.
    pub proof fn lemma_readings_never_decrease(
        earlier: Uptime,
        earlier_current: u32,
        later: Uptime,
        later_current: u32,
    )
        requires
            earlier.reload() == later.reload(),
            earlier.reload() < MICROS_PER_PERIOD,
            earlier_current <= earlier.reload(),
            later_current <= later.reload(),
            earlier.reload_count() < later.reload_count() || (earlier.reload_count()
                == later.reload_count() && later_current <= earlier_current),
        ensures
            earlier.elapsed_us(earlier_current) <= later.elapsed_us(later_current),
    {
    }

    /// Every reading fits an instant, so taking one never overflows.
    pub proof fn lemma_reading_fits(self, current: u32)
        requires
            current <= self.reload(),
        ensures
            0 <= self.elapsed_us(current) <= u64::MAX,
    {
    }

    /// A delay of no length ends where it begins, so that waiting for its end
    /// is over at once: the start is not before the end.
    pub proof fn lemma_zero_delay(start: Instant, end: Instant)
        requires
            Self::deadline(start.ticks(), 0) == Some(end.ticks()),
        ensures
            end == start,
            !start.is_lt(&end),
    {
        Instant::lemma_ticks_determine(start, end);
    }

    /// A delay either ends at the exact sum, which is not before its start,
    /// or, where that sum is beyond the last instant, has no end at all. It
    /// never ends at a wrapped instant.
    pub proof fn lemma_delay_never_wraps(start: Instant, micros: int)
        requires
            0 <= micros,
        ensures
            start.ticks() + micros > u64::MAX ==> Self::deadline(start.ticks(), micros) is None,
            start.ticks() + micros <= u64::MAX ==> Self::deadline(start.ticks(), micros) == Some(
                (start.ticks() + micros) as u64,
            ),
            Self::deadline(start.ticks(), micros) matches Some(end) ==> end >= start.ticks(),
    {
    }
}

} // verus!
