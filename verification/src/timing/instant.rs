//! Points on a monotonic clock, counted in nanoseconds from the clock's
//! origin, and the clock that produces them.
use vstd::prelude::*;

verus! {

#[verifier::external_type_specification]
#[verifier::external_body]
pub struct ExInstant(std::time::Instant);

/// A point on a monotonic clock: nanoseconds since the clock's origin.
#[derive(Debug, Clone, Copy, PartialEq, Eq, Structural)]
pub struct MonotonicInstant {
    nanos: u64,
}

impl MonotonicInstant {
    pub closed spec fn spec_nanos(self) -> u64 {
        self.nanos
    }

    /// The instant `nanos` nanoseconds after the origin.
    pub closed spec fn from_nanos_spec(nanos: u64) -> MonotonicInstant {
        MonotonicInstant { nanos }
    }

    /// An instant is determined by its nanoseconds.
    pub proof fn lemma_from_nanos_spec(nanos: u64, i: MonotonicInstant)
        ensures
            Self::from_nanos_spec(nanos).nanos() == nanos,
            Self::from_nanos_spec(i.nanos()) == i,
    {
    }

    pub fn from_nanos(nanos: u64) -> (r: MonotonicInstant)
        ensures
            r.nanos() == nanos,
            r == Self::from_nanos_spec(nanos),
    {
        MonotonicInstant { nanos }
    }

    #[verifier::when_used_as_spec(spec_nanos)]
    pub fn nanos(self) -> (r: u64)
        ensures
            r == self.spec_nanos(),
    {
        self.nanos
    }

    /// The nanoseconds from `earlier` to `self`, or `None` when `earlier`
    /// is later.
    pub fn checked_duration_since(self, earlier: MonotonicInstant) -> (r: Option<u64>)
        ensures
            earlier.nanos() <= self.nanos() <==> r is Some,
            r matches Some(d) ==> d == self.nanos() - earlier.nanos(),
    {
        if earlier.nanos <= self.nanos {
            Some(self.nanos - earlier.nanos)
        } else {
            None
        }
    }

    /// This instant moved `nanos` later, or `None` past the last instant.
    pub fn checked_add_nanos(self, nanos: u64) -> (r: Option<MonotonicInstant>)
        ensures
            self.nanos() + nanos <= u64::MAX <==> r is Some,
            r matches Some(t) ==> t.nanos() == self.nanos() + nanos && t == Self::from_nanos_spec(
                (self.nanos() + nanos) as u64,
            ),
    {
        match self.nanos.checked_add(nanos) {
            Some(value) => Some(MonotonicInstant { nanos: value }),
            None => None,
        }
    }
}

/// A monotonic clock with a fixed origin.
#[derive(Debug, Clone, Copy)]
pub struct MonotonicClock {
    origin: std::time::Instant,
}

/// Reads `std::time::Instant::now()`. Nothing is stated of the reading: it
/// is the time.
#[verifier::external_body]
fn read_instant_now() -> std::time::Instant {
    std::time::Instant::now()
}

/// Reads `Instant::elapsed` of `origin`. Nothing is stated of the reading:
/// it is the time.
#[verifier::external_body]
fn read_elapsed(origin: &std::time::Instant) -> std::time::Duration {
    origin.elapsed()
}

/// `Duration::as_nanos`: the whole nanoseconds of `duration`. Nothing is
/// stated of it, since nothing here gives a duration's contents.
#[verifier::external_body]
fn duration_nanos(duration: &std::time::Duration) -> u128 {
    duration.as_nanos()
}

impl MonotonicClock {
    /// A clock whose origin is now.
    pub fn start() -> (r: MonotonicClock) {
        MonotonicClock { origin: read_instant_now() }
    }

    /// The current instant of this clock.
    pub fn now(&self) -> (r: MonotonicInstant) {
        let elapsed = duration_nanos(&read_elapsed(&self.origin));
        let nanos: u64 = if elapsed > 18_446_744_073_709_551_615u128 {
            u64::MAX
        } else {
            elapsed as u64
        };
        MonotonicInstant { nanos }
    }
}

} // verus!
