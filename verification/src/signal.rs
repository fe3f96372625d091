//! The exit signal: a flag that can be waited on.
//!
//! [`Signal::stop`] raises the flag and notifies whoever listens. A waiter
//! goes round the phases of [`WaitPhase`]: it takes the flag, registers a
//! listener, takes the flag once more and only then suspends, so that a stop
//! between the first look and the registration is seen by the second look.

use event_listener::Event;
use std::sync::atomic::{AtomicBool, Ordering};
use vstd::prelude::*;

verus! {

/// What a waiter does next.
#[derive(Clone, Copy, PartialEq, Eq, Structural, Debug)]
pub enum WaitPhase {
    /// Take the flag, without a listener in place.
    Check,
    /// Register the listener with the signal's event.
    Listen,
    /// Take the flag again, now that the listener is registered.
    Recheck,
    /// Suspend until the listener is notified.
    Suspend,
    /// A stop was seen: the wait returns.
    Done,
}

/// The phase that follows `phase`. For the two phases that take the flag,
/// `flag_was_set` is what they found; the others do not depend on it.
pub open spec fn wait_next(phase: WaitPhase, flag_was_set: bool) -> WaitPhase {
    match phase {
        WaitPhase::Check => if flag_was_set {
            WaitPhase::Done
        } else {
            WaitPhase::Listen
        },
        WaitPhase::Listen => WaitPhase::Recheck,
        WaitPhase::Recheck => if flag_was_set {
            WaitPhase::Done
        } else {
            WaitPhase::Suspend
        },
        WaitPhase::Suspend => WaitPhase::Check,
        WaitPhase::Done => WaitPhase::Done,
    }
}

impl WaitPhase {
    /// True of the two phases in which the waiter takes the flag.
    pub open spec fn takes_flag(self) -> bool {
        self == WaitPhase::Check || self == WaitPhase::Recheck
    }

    /// The phase in which every wait begins.
    pub fn start() -> (phase: WaitPhase)
        ensures
            phase == WaitPhase::Check,
    {
        WaitPhase::Check
    }

    /// The phase that follows this one, once its action is done. For the two
    /// phases that take the flag, `flag_was_set` is what they found.
    pub fn after(self, flag_was_set: bool) -> (next: WaitPhase)
        ensures
            next == wait_next(self, flag_was_set),
    {
        match self {
            WaitPhase::Check => if flag_was_set {
                WaitPhase::Done
            } else {
                WaitPhase::Listen
            },
            WaitPhase::Listen => WaitPhase::Recheck,
            WaitPhase::Recheck => if flag_was_set {
                WaitPhase::Done
            } else {
                WaitPhase::Suspend
            },
            WaitPhase::Suspend => WaitPhase::Check,
            WaitPhase::Done => WaitPhase::Done,
        }
    }
}

/// `event_listener::Event`, the broadcaster that a signal notifies. Nothing
/// is known of what it holds.
#[verifier::external_type_specification]
#[verifier::external_body]
#[verifier::reject_recursive_types(T)]
pub struct ExEvent<T>(Event<T>);

/// `Event::new` of event_listener: an event without listeners. The contract
/// claims nothing.
#[verifier::external_body]
fn new_event() -> Event {
    Event::new()
}

/// `Event::notify_additional` of event_listener: notifies up to `n`
/// listeners that are registered and not yet notified, and returns how many
/// it notified. That number depends on who listens, so the contract claims
/// nothing of it.
#[verifier::external_body]
fn notify_additional(event: &Event, n: usize) -> usize {
    event.notify_additional(n)
}

/// A flag that stops the reactor, with the event that wakes those who wait
/// for it.
pub struct Signal {
    stop_running: AtomicBool,
    stop_ops: Event,
}

impl Signal {
    /// The event that this signal notifies when it is sent.
    pub closed spec fn broadcaster(&self) -> Event {
        self.stop_ops
    }

    /// A signal that has not been sent.
    pub fn new() -> Signal {
        Signal { stop_running: AtomicBool::new(false), stop_ops: new_event() }
    }

    /// Sends the signal: raises the flag, then notifies every listener that
    /// is registered. Never blocks, and may be repeated.
    pub fn stop(&self) {
        self.stop_running.store(true, Ordering::Release);
        let _ = notify_additional(&self.stop_ops, usize::MAX);
    }

    /// The event with which a waiter registers its listener in the phase
    /// `Listen`: this signal's own, the one that `stop` notifies.
    pub fn event(&self) -> (event: &Event)
        ensures
            *event == self.broadcaster(),
    {
        &self.stop_ops
    }

    /// Moves a waiter on by one phase. In the phases `Check` and `Recheck`
    /// this takes the flag, lowering it, and the wait is `Done` exactly where
    /// the flag was up. The caller performs the other phases itself before it
    /// calls this: it registers its listener in `Listen` and waits for the
    /// notification in `Suspend`.
    pub fn advance(&self, phase: WaitPhase) -> (next: WaitPhase)
        ensures
            !phase.takes_flag() ==> next == wait_next(phase, false),
            phase.takes_flag() ==> exists|flag_was_set: bool|
                next == #[trigger] wait_next(phase, flag_was_set),
    {
        let flag_was_set = match phase {
            WaitPhase::Check => self.stop_running.swap(false, Ordering::Relaxed),
            WaitPhase::Recheck => self.stop_running.swap(false, Ordering::SeqCst),
            _ => false,
        };
        let next = phase.after(flag_was_set);
        assert(next == wait_next(phase, flag_was_set));
        next
    }
}

/// A waiter together with the signal it waits on, as far as the waiter's own
/// moves and the stops of other threads can tell them apart.
pub struct WaitModel {
    /// What the waiter does next.
    pub phase: WaitPhase,
    /// Whether the flag is up.
    pub flag: bool,
    /// Whether the waiter's listener is registered with the event.
    pub listening: bool,
    /// Whether the registered listener has been notified.
    pub notified: bool,
}

/// One move of a waiter or of a thread that sends the signal.
#[derive(Clone, Copy, PartialEq, Eq, Structural, Debug)]
pub enum Move {
    /// Some thread calls `stop`.
    Stop,
    /// The waiter performs the action of its phase, if it can.
    Wait,
}

/// A waiter that is about to begin, with the flag as earlier stops left it.
pub open spec fn model_start(flag: bool) -> WaitModel {
    WaitModel { phase: WaitPhase::Check, flag, listening: false, notified: false }
}

/// The effect of a stop: the flag goes up and a registered listener is
/// notified. Without a listener the notification is lost.
pub open spec fn model_stop(m: WaitModel) -> WaitModel {
    WaitModel { phase: m.phase, flag: true, listening: m.listening, notified: m.listening }
}

/// The effect of the waiter's next action. Taking the flag lowers it, and a
/// waiter that found it up drops its listener and returns. A waiter in
/// `Suspend` moves only once its listener is notified; until then it is
/// blocked and nothing changes.
pub open spec fn model_wait(m: WaitModel) -> WaitModel {
    let phase = wait_next(m.phase, m.flag);
    match m.phase {
        WaitPhase::Check | WaitPhase::Recheck => WaitModel {
            phase,
            flag: false,
            listening: m.listening && !m.flag,
            notified: m.notified && !m.flag,
        },
        WaitPhase::Listen => WaitModel { phase, flag: m.flag, listening: true, notified: false },
        WaitPhase::Suspend => if m.notified {
            WaitModel { phase, flag: m.flag, listening: false, notified: false }
        } else {
            m
        },
        WaitPhase::Done => m,
    }
}

/// The waiter and the signal after `moves`, made in their order.
pub open spec fn model_run(m: WaitModel, moves: Seq<Move>) -> WaitModel
    decreases moves.len(),
{
    if moves.len() == 0 {
        m
    } else {
        let before = model_run(m, moves.drop_last());
        match moves.last() {
            Move::Stop => model_stop(before),
            Move::Wait => model_wait(before),
        }
    }
}

/// How many of `moves` are the waiter's.
pub open spec fn waits_in(moves: Seq<Move>) -> nat
    decreases moves.len(),
{
    if moves.len() == 0 {
        0
    } else {
        let one: nat = if moves.last() == Move::Wait {
            1
        } else {
            0
        };
        waits_in(moves.drop_last()) + one
    }
}

/// A waiter that is past `Listen` and not yet through `Suspend` has its
/// listener registered.
spec fn listener_in_place(m: WaitModel) -> bool {
    (m.phase == WaitPhase::Recheck || m.phase == WaitPhase::Suspend) ==> m.listening
}

/// The waiter has returned, or a stop is in place that it cannot miss: the
/// flag is up, and a suspended waiter has been notified.
spec fn stop_in_sight(m: WaitModel) -> bool {
    m.phase == WaitPhase::Done || (m.flag && (m.phase == WaitPhase::Suspend ==> m.notified))
}

/// An upper bound on the moves that a waiter with a stop in sight still has
/// to make.
spec fn moves_left(m: WaitModel) -> nat {
    match m.phase {
        WaitPhase::Done => 0,
        WaitPhase::Check | WaitPhase::Recheck => 1,
        WaitPhase::Listen | WaitPhase::Suspend => 2,
    }
}

proof fn lemma_listener_stays_in_place(m: WaitModel, moves: Seq<Move>)
    requires
        listener_in_place(m),
    ensures
        listener_in_place(model_run(m, moves)),
    decreases moves.len(),
{
    if moves.len() > 0 {
        lemma_listener_stays_in_place(m, moves.drop_last());
    }
}

proof fn lemma_stop_in_sight_is_reached(m: WaitModel, moves: Seq<Move>)
    requires
        listener_in_place(m),
        stop_in_sight(m),
    ensures
        listener_in_place(model_run(m, moves)),
        stop_in_sight(model_run(m, moves)),
        moves_left(model_run(m, moves)) == 0 || moves_left(model_run(m, moves)) + waits_in(moves)
            <= 2,
    decreases moves.len(),
{
    if moves.len() > 0 {
        lemma_stop_in_sight_is_reached(m, moves.drop_last());
    }
}

/// No missed wakeup: once a stop has been sent, however the waiter and other
/// stops were interleaved before it and are interleaved after it, the wait
/// has returned by the waiter's second move after that stop. The waiter is
/// never left blocked, and needs no further stop.
pub proof fn lemma_stop_is_never_missed(flag_at_start: bool, before: Seq<Move>, after: Seq<Move>)
    requires
        waits_in(after) >= 2,
    ensures
        model_run(model_stop(model_run(model_start(flag_at_start), before)), after).phase
            == WaitPhase::Done,
{
    let at_stop = model_run(model_start(flag_at_start), before);
    lemma_listener_stays_in_place(model_start(flag_at_start), before);
    lemma_stop_in_sight_is_reached(model_stop(at_stop), after);
}

/// A stop that was sent before the wait began is seen by the waiter's first
/// move.
pub proof fn lemma_earlier_stop_ends_wait_at_once()
    ensures
        model_wait(model_start(true)).phase == WaitPhase::Done,
        wait_next(WaitPhase::Check, true) == WaitPhase::Done,
{
}

/// Only a raised flag ends a wait: a notification alone, such as one meant
/// for another batch of listeners, sends the waiter back to take the flag.
pub proof fn lemma_only_a_stop_ends_the_wait(phase: WaitPhase, flag_was_set: bool)
    requires
        phase != WaitPhase::Done,
        wait_next(phase, flag_was_set) == WaitPhase::Done,
    ensures
        phase.takes_flag(),
        flag_was_set,
{
}

} // verus!
