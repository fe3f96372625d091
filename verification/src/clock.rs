//! The reactor's clock: instants and durations in whole nanoseconds.
//!
//! An [`Instant`] is a signed count of nanoseconds from the origin of the
//! clock that read it: instants before the origin are negative. A
//! [`Duration`] counts nanoseconds and is never negative. Both hold 64 bits,
//! so the clock's range reaches some 292 years to either side of its origin;
//! a sum that leaves this range has no value.

use vstd::prelude::*;

verus! {

/// The first nanosecond that the clock can represent.
pub open spec fn clock_start() -> int {
    i64::MIN as int
}

/// The last nanosecond that the clock can represent.
pub open spec fn clock_end() -> int {
    i64::MAX as int
}

/// The longest span that a duration can hold, in nanoseconds.
pub open spec fn longest_span() -> nat {
    u64::MAX as nat
}

/// A span of time, in nanoseconds.
#[derive(Clone, Copy, PartialEq, Eq, Structural, Debug)]
pub struct Duration {
    nanos: u64,
}

/// A point in time, in nanoseconds from the clock's origin.
#[derive(Clone, Copy, PartialEq, Eq, Structural, Debug)]
pub struct Instant {
    nanos: i64,
}

impl View for Duration {
    type V = nat;

    closed spec fn view(&self) -> nat {
        self.nanos as nat
    }
}

impl View for Instant {
    type V = int;

    closed spec fn view(&self) -> int {
        self.nanos as int
    }
}

/// The number of nanoseconds in `count` units of `nanos_per_unit` nanoseconds
/// each, or the longest span where that is longer.
pub open spec fn saturated(count: nat, nanos_per_unit: nat) -> nat {
    if count * nanos_per_unit <= longest_span() {
        count * nanos_per_unit
    } else {
        longest_span()
    }
}

/// A span of `nanos` nanoseconds, or the longest span where that is longer.
pub open spec fn clamped(nanos: u128) -> nat {
    if nanos <= u64::MAX {
        nanos as nat
    } else {
        longest_span()
    }
}

/// The instant `nanos` nanoseconds after the origin, or the end of the
/// clock's range where that is past it.
pub open spec fn after_origin_of(nanos: u128) -> int {
    if nanos <= i64::MAX {
        nanos as int
    } else {
        clock_end()
    }
}

/// The instant `nanos` nanoseconds before the origin, or the start of the
/// clock's range where that is before it.
pub open spec fn before_origin_of(nanos: u128) -> int {
    if nanos <= i64::MAX {
        -(nanos as int)
    } else {
        clock_start()
    }
}

/// The instant `duration` after `at`, where the clock can represent it.
pub open spec fn sum_in_range(at: int, duration: nat) -> Option<int> {
    if at + duration <= clock_end() {
        Some(at + duration)
    } else {
        None
    }
}

impl Duration {
    /// A span of `nanos` nanoseconds.
    pub fn from_nanos(nanos: u64) -> (duration: Duration)
        ensures
            duration@ == nanos,
    {
        Duration { nanos }
    }

    /// A span of `nanos` nanoseconds, or the longest span where that is out
    /// of range.
    pub fn saturating_from_nanos(nanos: u128) -> (duration: Duration)
        ensures
            duration@ == clamped(nanos),
    {
        if nanos <= u64::MAX as u128 {
            Duration { nanos: nanos as u64 }
        } else {
            Duration { nanos: u64::MAX }
        }
    }

    /// A span of `millis` milliseconds, or the longest span where that is
    /// out of range.
    pub fn from_millis(millis: u64) -> (duration: Duration)
        ensures
            duration@ == saturated(millis as nat, 1_000_000),
    {
        if millis <= u64::MAX / 1_000_000 {
            Duration { nanos: millis * 1_000_000 }
        } else {
            Duration { nanos: u64::MAX }
        }
    }

    /// A span of `secs` seconds, or the longest span where that is out of
    /// range.
    pub fn from_secs(secs: u64) -> (duration: Duration)
        ensures
            duration@ == saturated(secs as nat, 1_000_000_000),
    {
        if secs <= u64::MAX / 1_000_000_000 {
            Duration { nanos: secs * 1_000_000_000 }
        } else {
            Duration { nanos: u64::MAX }
        }
    }

    /// The span in nanoseconds.
    pub fn as_nanos(&self) -> (nanos: u64)
        ensures
            nanos == self@,
    {
        self.nanos
    }

    /// No span is longer than the longest, and two spans of the same length
    /// are the same span.
    pub proof fn lemma_view(self, other: Duration)
        ensures
            self@ <= longest_span(),
            self@ == other@ ==> self == other,
    {
    }
}

impl Instant {
    /// The instant `nanos` nanoseconds from the clock's origin: after it
    /// where `nanos` is positive, before it where `nanos` is negative.
    pub fn from_nanos(nanos: i64) -> (instant: Instant)
        ensures
            instant@ == nanos,
    {
        Instant { nanos }
    }

    /// The instant `nanos` nanoseconds after the clock's origin, or the end
    /// of the clock's range where that is past it.
    pub fn after_origin(nanos: u128) -> (instant: Instant)
        ensures
            instant@ == after_origin_of(nanos),
    {
        if nanos <= i64::MAX as u128 {
            Instant { nanos: nanos as i64 }
        } else {
            Instant { nanos: i64::MAX }
        }
    }

    /// The instant `nanos` nanoseconds before the clock's origin, or the
    /// start of the clock's range where that is before it.
    pub fn before_origin(nanos: u128) -> (instant: Instant)
        ensures
            instant@ == before_origin_of(nanos),
    {
        if nanos <= i64::MAX as u128 {
            Instant { nanos: -(nanos as i64) }
        } else {
            Instant { nanos: i64::MIN }
        }
    }

    /// The nanoseconds from the clock's origin to this instant, negative for
    /// an instant before the origin.
    pub fn as_nanos(&self) -> (nanos: i64)
        ensures
            nanos == self@,
    {
        self.nanos
    }

    /// The instant that lies `duration` after this one; `None` where that is
    /// past the end of the clock's range.
    pub fn checked_add(&self, duration: Duration) -> (sum: Option<Instant>)
        ensures
            match sum {
                Some(instant) => sum_in_range(self@, duration@) == Some(instant@),
                None => sum_in_range(self@, duration@) is None,
            },
    {
        let sum: i128 = self.nanos as i128 + duration.nanos as i128;
        if sum <= i64::MAX as i128 {
            Some(Instant { nanos: sum as i64 })
        } else {
            None
        }
    }

    /// Whether this instant is `deadline` or later.
    pub fn has_reached(&self, deadline: Instant) -> (reached: bool)
        ensures
            reached == (self@ >= deadline@),
    {
        self.nanos >= deadline.nanos
    }

    /// Every instant lies in the clock's range, and two instants at the same
    /// distance from the origin are the same instant.
    pub proof fn lemma_view(self, other: Instant)
        ensures
            clock_start() <= self@ <= clock_end(),
            self@ == other@ ==> self == other,
    {
    }
}

/// `std::time::Instant`, which is what `web_time::Instant` names off the web:
/// a reading of the system's monotonic clock. Nothing is known of what it
/// holds.
#[verifier::external_type_specification]
#[verifier::external_body]
pub struct ExStdInstant(std::time::Instant);

/// `Instant::now` of web_time: the monotonic clock's present reading. The
/// contract claims nothing of it.
#[verifier::external_body]
fn monotonic_now() -> std::time::Instant {
    web_time::Instant::now()
}

/// `Instant::elapsed` of std: the time from `origin` to now. The contract
/// claims nothing of it.
#[verifier::external_body]
fn elapsed_since(origin: &std::time::Instant) -> std::time::Duration {
    origin.elapsed()
}

/// `Duration::as_nanos` of std: the span in whole nanoseconds. The contract
/// claims nothing of it.
#[verifier::external_body]
fn whole_nanos(span: &std::time::Duration) -> u128 {
    span.as_nanos()
}

/// A monotonic clock whose origin is the moment it was started.
pub struct Clock {
    origin: std::time::Instant,
}

impl Clock {
    /// The reading of the system's clock from which this clock counts.
    pub closed spec fn started_at(&self) -> std::time::Instant {
        self.origin
    }

    /// Starts a clock. Its origin is now.
    pub fn start() -> Clock {
        Clock { origin: monotonic_now() }
    }

    /// The reading of the system's clock at which this clock was started.
    /// An instant of this clock lies that many nanoseconds after it.
    pub fn origin(&self) -> (origin: std::time::Instant)
        ensures
            origin == self.started_at(),
    {
        self.origin
    }

    /// The present instant: the time since the clock was started, or the end
    /// of the clock's range after that has passed. Two readings may differ,
    /// so all that holds of one is that it does not lie before the origin.
    pub fn now(&self) -> (now: Instant)
        ensures
            exists|nanos: u128| now@ == #[trigger] after_origin_of(nanos),
    {
        let span = elapsed_since(&self.origin);
        let nanos = whole_nanos(&span);
        let now = Instant::after_origin(nanos);
        assert(now@ == after_origin_of(nanos));
        now
    }
}

} // verus!
