//! Points in time on a monotonic clock, held as whole nanoseconds.
use vstd::prelude::*;

verus! {

#[verifier::external_type_specification]
#[verifier::external_body]
pub struct ExInstant(std::time::Instant);

/// Relies on `std::time::Instant::now`: a reading of the monotonic clock.
/// Nothing is known of the value read.
pub assume_specification[ std::time::Instant::now ]() -> std::time::Instant;

/// Relies on `std::time::Instant::elapsed`: the time since the instant,
/// which saturates at zero rather than panic. Nothing is known of the value.
pub assume_specification[ std::time::Instant::elapsed ](i: &std::time::Instant) -> core::time::Duration;

/// Relies on `core::time::Duration::as_nanos`: the whole nanoseconds of a
/// duration, which never panics.
pub assume_specification[ core::time::Duration::as_nanos ](d: &core::time::Duration) -> u128;

/// The process's monotonic clock, read as nanoseconds since the clock was made.
pub struct Clock {
    origin: std::time::Instant,
}

impl Clock {
    pub fn new() -> (r: Clock) {
        Clock { origin: std::time::Instant::now() }
    }

    /// Nanoseconds since this clock was made, saturated at `u64::MAX`.
    /// What is read depends on when it is read; no contract can fix it.
    pub fn now_nanos(&self) -> (r: u64) {
        let n = self.origin.elapsed().as_nanos();
        if n > u64::MAX as u128 {
            u64::MAX
        } else {
            n as u64
        }
    }
}

/// Time elapsed, in nanoseconds, from a recorded point to the reading `now`.
/// An unrecorded point has no elapsed time, and a reading taken before the
/// point counts as no time at all.
pub open spec fn elapsed_nanos(recorded: Option<u64>, now: u64) -> nat {
    match recorded {
        None => 0,
        Some(start) => if now >= start {
            (now - start) as nat
        } else {
            0
        },
    }
}

/// `a.elapsed() - b.elapsed()` at one shared reading: the reading cancels and
/// what is left is the distance from `a` to `b`; zero if either is unrecorded.
pub open spec fn delta_nanos(a: Option<u64>, b: Option<u64>) -> int {
    match (a, b) {
        (Some(x), Some(y)) => y - x,
        _ => 0,
    }
}

/// A point in time on a [`Clock`], or the empty point "not yet recorded".
#[derive(Clone, Copy, Debug, PartialEq, Eq, Structural)]
pub struct Timestamp {
    recorded: Option<u64>,
}

impl View for Timestamp {
    type V = Option<u64>;

    closed spec fn view(&self) -> Option<u64> {
        self.recorded
    }
}

impl Timestamp {
    /// The current reading of `clock`.
    pub fn now(clock: &Clock) -> (r: Timestamp)
        ensures
            r@.is_some(),
    {
        Timestamp::at(clock.now_nanos())
    }

    /// The point `nanos` nanoseconds after the clock's origin.
    pub fn at(nanos: u64) -> (r: Timestamp)
        ensures
            r@ == Some(nanos),
    {
        Timestamp { recorded: Some(nanos) }
    }

    /// The empty point: nothing recorded yet.
    pub fn empty() -> (r: Timestamp)
        ensures
            r@ == None::<u64>,
    {
        Timestamp { recorded: None }
    }

    pub fn is_empty(&self) -> (r: bool)
        ensures
            r == self@.is_none(),
    {
        self.recorded.is_none()
    }

    /// Nanoseconds from this point to the reading `now`.
    pub fn elapsed_at(&self, now: u64) -> (r: u64)
        ensures
            r == elapsed_nanos(self@, now),
    {
        match self.recorded {
            None => 0,
            Some(start) => if now >= start {
                now - start
            } else {
                0
            },
        }
    }

    /// Nanoseconds from this point to a fresh reading of `clock`.
    pub fn elapsed(&self, clock: &Clock) -> (r: u64)
        ensures
            self@.is_none() ==> r == 0,
            exists|now: u64| r == elapsed_nanos(self@, now),
    {
        let now = clock.now_nanos();
        self.elapsed_at(now)
    }

    /// `self.elapsed() - other.elapsed()` taken at one reading, in nanoseconds.
    pub fn delta(&self, other: &Timestamp) -> (r: i128)
        ensures
            r == delta_nanos(self@, other@),
    {
        match (self.recorded, other.recorded) {
            (Some(a), Some(b)) => b as i128 - a as i128,
            _ => 0,
        }
    }
}

} // verus!
