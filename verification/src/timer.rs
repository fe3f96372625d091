//! Timers: a deadline that fires once, or a first deadline and a period.
//!
//! A timer is polled with the present instant. It fires when its deadline has
//! been reached, and a firing uses the deadline up: a one-shot timer never
//! fires again, an interval timer moves its deadline on by one period,
//! however late the poll was. The deadlines of an interval timer are
//! therefore the multiples of the period after its start, as far as the
//! clock's range goes: a timer whose next deadline would lie past the end of
//! that range never fires again.

use crate::clock::{clock_end, Duration, Instant};
use crate::driver::Polled;
use vstd::prelude::*;

verus! {

/// When a timer fires, in nanoseconds from the clock's origin.
pub enum Mode {
    /// Never.
    Never,
    /// Once, at this deadline.
    At(int),
    /// Next at the first number, and from then on once per period, which is
    /// the second number, until the next deadline would lie past the end of
    /// the clock's range.
    Interval(int, nat),
}

/// The timer that fires once, `duration` after `now`. Where that deadline is
/// past the end of the clock's range it never fires.
pub open spec fn mode_after(now: int, duration: nat) -> Mode {
    if now + duration <= clock_end() {
        Mode::At(now + duration)
    } else {
        Mode::Never
    }
}

/// The timer that fires first one `period` after `now` and then once per
/// `period`. Where the first deadline is past the end of the clock's range it
/// never fires.
pub open spec fn mode_interval(now: int, period: nat) -> Mode {
    if now + period <= clock_end() {
        Mode::Interval(now + period, period)
    } else {
        Mode::Never
    }
}

/// The deadline that the timer waits for, if it waits for one.
pub open spec fn next_deadline(mode: Mode) -> Option<int> {
    match mode {
        Mode::Never => None,
        Mode::At(deadline) => Some(deadline),
        Mode::Interval(next, _) => Some(next),
    }
}

/// Whether a poll at `now` finds the timer's deadline reached.
pub open spec fn is_due(mode: Mode, now: int) -> bool {
    match next_deadline(mode) {
        Some(deadline) => now >= deadline,
        None => false,
    }
}

/// The timer after it fired: its deadline is used up. An interval timer
/// whose next deadline would be past the end of the clock's range never
/// fires again.
pub open spec fn fired(mode: Mode) -> Mode {
    match mode {
        Mode::Never => Mode::Never,
        Mode::At(_) => Mode::Never,
        Mode::Interval(next, period) => if next + period <= clock_end() {
            Mode::Interval(next + period, period)
        } else {
            Mode::Never
        },
    }
}

/// The timer after a poll at `now`.
pub open spec fn polled_at(mode: Mode, now: int) -> Mode {
    if is_due(mode, now) {
        fired(mode)
    } else {
        mode
    }
}

/// The timer after polls at `times`, made in their order.
pub open spec fn mode_after_polls(mode: Mode, times: Seq<int>) -> Mode
    decreases times.len(),
{
    if times.len() == 0 {
        mode
    } else {
        polled_at(mode_after_polls(mode, times.drop_last()), times.last())
    }
}

/// How many of the polls at `times` found the timer due.
pub open spec fn firings(mode: Mode, times: Seq<int>) -> nat
    decreases times.len(),
{
    if times.len() == 0 {
        0
    } else {
        let one: nat = if is_due(mode_after_polls(mode, times.drop_last()), times.last()) {
            1
        } else {
            0
        };
        firings(mode, times.drop_last()) + one
    }
}

enum Deadline {
    Never,
    At(Instant),
    Interval(Instant, Duration),
}

/// A timer of the run loop.
pub struct Timer {
    deadline: Deadline,
}

impl View for Timer {
    type V = Mode;

    closed spec fn view(&self) -> Mode {
        match self.deadline {
            Deadline::Never => Mode::Never,
            Deadline::At(deadline) => Mode::At(deadline@),
            Deadline::Interval(next, period) => Mode::Interval(next@, period@),
        }
    }
}

impl Timer {
    /// A timer that never fires.
    pub fn never() -> (timer: Timer)
        ensures
            timer@ == Mode::Never,
    {
        Timer { deadline: Deadline::Never }
    }

    /// A timer that fires once, `duration` after `now`, or never where that
    /// is past the end of the clock's range.
    pub fn after(now: Instant, duration: Duration) -> (timer: Timer)
        ensures
            timer@ == mode_after(now@, duration@),
    {
        match now.checked_add(duration) {
            Some(deadline) => Timer::at(deadline),
            None => Timer::never(),
        }
    }

    /// A timer that fires once, at `deadline`.
    pub fn at(deadline: Instant) -> (timer: Timer)
        ensures
            timer@ == Mode::At(deadline@),
    {
        Timer { deadline: Deadline::At(deadline) }
    }

    /// A timer that fires first one `period` after `now` and then once per
    /// `period`, or never where the first deadline is past the end of the
    /// clock's range.
    pub fn interval(now: Instant, period: Duration) -> (timer: Timer)
        ensures
            timer@ == mode_interval(now@, period@),
    {
        match now.checked_add(period) {
            Some(start) => Timer::interval_at(start, period),
            None => Timer::never(),
        }
    }

    /// A timer that fires first at `start` and then once per `period`.
    pub fn interval_at(start: Instant, period: Duration) -> (timer: Timer)
        ensures
            timer@ == Mode::Interval(start@, period@),
    {
        Timer { deadline: Deadline::Interval(start, period) }
    }

    /// Makes this a timer that never fires.
    pub fn set_never(&mut self)
        ensures
            final(self)@ == Mode::Never,
    {
        self.deadline = Deadline::Never;
    }

    /// Makes this a timer that fires once, `after` after `now`, or never
    /// where that is past the end of the clock's range. What the timer
    /// waited for before is forgotten.
    pub fn set_after(&mut self, now: Instant, after: Duration)
        ensures
            final(self)@ == mode_after(now@, after@),
    {
        match now.checked_add(after) {
            None => self.set_never(),
            Some(deadline) => self.set_at(deadline),
        }
    }

    /// Makes this a timer that fires once, at `deadline`. What the timer
    /// waited for before is forgotten.
    pub fn set_at(&mut self, deadline: Instant)
        ensures
            final(self)@ == Mode::At(deadline@),
    {
        self.deadline = Deadline::At(deadline);
    }

    /// Makes this a timer that fires first one `period` after `now` and then
    /// once per `period`, or never where the first deadline is past the end
    /// of the clock's range. What the timer waited for before is forgotten.
    pub fn set_interval(&mut self, now: Instant, period: Duration)
        ensures
            final(self)@ == mode_interval(now@, period@),
    {
        match now.checked_add(period) {
            None => self.set_never(),
            Some(start) => self.set_interval_at(start, period),
        }
    }

    /// Makes this a timer that fires first at `start` and then once per
    /// `period`. What the timer waited for before is forgotten.
    pub fn set_interval_at(&mut self, start: Instant, period: Duration)
        ensures
            final(self)@ == Mode::Interval(start@, period@),
    {
        self.deadline = Deadline::Interval(start, period);
    }

    /// The instant before which the timer cannot fire: the caller sleeps
    /// until then, at the longest. `None` where the timer never fires.
    pub fn deadline(&self) -> (deadline: Option<Instant>)
        ensures
            match deadline {
                Some(instant) => next_deadline(self@) == Some(instant@),
                None => next_deadline(self@) is None,
            },
    {
        match self.deadline {
            Deadline::Never => None,
            Deadline::At(deadline) => Some(deadline),
            Deadline::Interval(next, _) => Some(next),
        }
    }

    /// Polls the timer at `now`. It is ready exactly where its deadline has
    /// been reached, and the firing then uses that deadline up.
    pub fn poll(&mut self, now: Instant) -> (polled: Polled<()>)
        ensures
            final(self)@ == polled_at(old(self)@, now@),
            is_due(old(self)@, now@) ==> polled == Polled::Ready(()),
            !is_due(old(self)@, now@) ==> polled == Polled::<()>::Pending,
    {
        match self.deadline {
            Deadline::Never => Polled::Pending,
            Deadline::At(deadline) => {
                if now.has_reached(deadline) {
                    self.deadline = Deadline::Never;
                    Polled::Ready(())
                } else {
                    Polled::Pending
                }
            },
            Deadline::Interval(next, period) => {
                if now.has_reached(next) {
                    match next.checked_add(period) {
                        Some(following) => {
                            self.deadline = Deadline::Interval(following, period);
                        },
                        None => {
                            self.deadline = Deadline::Never;
                        },
                    }
                    Polled::Ready(())
                } else {
                    Polled::Pending
                }
            },
        }
    }

    /// Polls the timer at `now` as a sequence of firings. The sequence has no
    /// end: the poll gives the next firing or is pending.
    pub fn poll_next(&mut self, now: Instant) -> (polled: Polled<Option<()>>)
        ensures
            final(self)@ == polled_at(old(self)@, now@),
            is_due(old(self)@, now@) ==> polled == Polled::Ready(Some(())),
            !is_due(old(self)@, now@) ==> polled == Polled::<Option<()>>::Pending,
    {
        match self.poll(now) {
            Polled::Ready(fired) => Polled::Ready(Some(fired)),
            Polled::Pending => Polled::Pending,
        }
    }

    /// Bounds on the number of firings still to come, as a stream reports
    /// them: no upper bound.
    pub fn size_hint(&self) -> (hint: (usize, Option<usize>))
        ensures
            hint == (usize::MAX, None::<usize>),
    {
        (usize::MAX, None)
    }
}

/// A timer set for `duration` after `now` is not ready at any instant before
/// that duration has passed, and after it has fired it never fires again.
pub proof fn lemma_after_waits_out_its_duration(now: int, duration: nat, at: int)
    ensures
        is_due(mode_after(now, duration), at) ==> at >= now + duration,
        fired(mode_after(now, duration)) == Mode::Never,
{
}

/// A timer that never fires is never ready and stays as it is under any
/// polls.
pub proof fn lemma_never_stays_pending(times: Seq<int>)
    ensures
        mode_after_polls(Mode::Never, times) == Mode::Never,
        firings(Mode::Never, times) == 0,
    decreases times.len(),
{
    if times.len() > 0 {
        lemma_never_stays_pending(times.drop_last());
    }
}

/// An interval timer is anchored at its start: after it has fired `k` times
/// it waits for `start + k * period`, whenever the polls came and however
/// late they were. It stops only where that deadline is past the end of the
/// clock's range.
pub proof fn lemma_interval_is_anchored(start: int, period: nat, times: Seq<int>)
    requires
        start <= clock_end(),
    ensures
        mode_after_polls(Mode::Interval(start, period), times) == (if start + firings(
            Mode::Interval(start, period),
            times,
        ) * period <= clock_end() {
            Mode::Interval(
                start + firings(Mode::Interval(start, period), times) * period,
                period,
            )
        } else {
            Mode::Never
        }),
    decreases times.len(),
{
    let timer = Mode::Interval(start, period);
    if times.len() > 0 {
        let before = times.drop_last();
        lemma_interval_is_anchored(start, period, before);
        let k = firings(timer, before);
        assert((k + 1) * period == k * period + period) by (nonlinear_arith);
    } else {
        assert(0 * period == 0) by (nonlinear_arith);
    }
}

/// No firing of an interval timer is early: the poll that gives firing
/// number `k`, counted from zero, comes at `start + k * period` or later.
pub proof fn lemma_interval_firing_is_never_early(
    start: int,
    period: nat,
    times: Seq<int>,
    now: int,
)
    requires
        start <= clock_end(),
        is_due(mode_after_polls(Mode::Interval(start, period), times), now),
    ensures
        now >= start + firings(Mode::Interval(start, period), times) * period,
{
    lemma_interval_is_anchored(start, period, times);
}

/// An interval timer that is polled at or after its deadline fires at that
/// poll: firing number `k` is given to the first poll that comes at
/// `start + k * period` or later.
pub proof fn lemma_interval_firing_is_not_missed(
    start: int,
    period: nat,
    times: Seq<int>,
    now: int,
)
    requires
        start <= clock_end(),
        start + firings(Mode::Interval(start, period), times) * period <= now,
        now <= clock_end(),
    ensures
        is_due(mode_after_polls(Mode::Interval(start, period), times), now),
{
    lemma_interval_is_anchored(start, period, times);
}

} // verus!
