//! The host-driven strategy: the host owns the blocking call and invokes the
//! run from its event callback.
//!
//! [`Register`] is the cell that a run shares with its wake handles. Each of
//! its methods is one atomic update of the cell, the one that the functions
//! of [`crate::state`] ask for, and returns what belongs to the value that the
//! update found there. Other threads may change the cell at any time, so a
//! method can only say that its result belongs to some value of the cell.

use crate::driver::Polled;
use crate::state::{
    claim_next, claim_polls, decode, enter_next, enter_result, event_next, leave_next,
    pump_next, pump_timeout, wake_action, wake_next, ReactorState, Timeout, Violation,
    WakeAction, ASLEEP, AWAKE, NOTIFIED, NOT_RUNNING,
};
use std::sync::atomic::{AtomicUsize, Ordering};
use vstd::prelude::*;

verus! {

/// What an entry that found `raw` in the cell returns.
pub open spec fn enter_outcome(raw: usize) -> Result<(), Violation> {
    match decode(raw) {
        None => Err(Violation::Unintelligible),
        Some(state) => enter_result(state),
    }
}

/// What a wake handle that found `raw` in the cell returns.
pub open spec fn wake_outcome(raw: usize) -> Result<WakeAction, Violation> {
    match decode(raw) {
        None => Err(Violation::Unintelligible),
        Some(state) => Ok(wake_action(state)),
    }
}

/// What the loop that found `raw` in the cell before the pump returns.
pub open spec fn pump_outcome(raw: usize) -> Result<Timeout, Violation> {
    match decode(raw) {
        None => Err(Violation::Unintelligible),
        Some(state) => pump_timeout(state),
    }
}

/// What a claim that found `raw` in the cell returns.
pub open spec fn claim_outcome(raw: usize) -> Result<bool, Violation> {
    match decode(raw) {
        None => Err(Violation::Unintelligible),
        Some(state) => claim_polls(state),
    }
}

/// The number that a wake handle stores over `raw`; `None` where it leaves
/// the cell as it is.
pub open spec fn wake_target_of(raw: usize) -> Option<usize> {
    match decode(raw) {
        Some(state) => if wake_next(state) != state {
            Some(wake_next(state).raw_spec())
        } else {
            None
        },
        None => None,
    }
}

/// The cell after a compare-and-swap of `current` for `new` that found `raw`.
pub open spec fn exchanged(raw: usize, current: usize, new: usize) -> usize {
    if raw == current {
        new
    } else {
        raw
    }
}

/// The cell after a wake handle's update that found `raw`.
pub open spec fn woken(raw: usize) -> usize {
    match wake_target_of(raw) {
        Some(target) => target,
        None => raw,
    }
}

/// The updates that the register makes are the ones that the states ask
/// for: each turns a cell that stands for a state into the cell that stands
/// for the state's successor under that step.
pub proof fn lemma_updates_follow_the_states(state: ReactorState)
    ensures
        decode(exchanged(state.raw_spec(), NOT_RUNNING, NOTIFIED)) == Some(enter_next(state)),
        decode(woken(state.raw_spec())) == Some(wake_next(state)),
        decode(exchanged(state.raw_spec(), AWAKE, ASLEEP)) == Some(pump_next(state)),
        decode(exchanged(state.raw_spec(), ASLEEP, AWAKE)) == Some(event_next(state)),
        decode(exchanged(state.raw_spec(), NOTIFIED, AWAKE)) == Some(claim_next(state)),
{
}

/// What an entry that found `seen` in the cell returns: success for
/// `NotRunning`, and a violation for everything else.
pub fn judge_entry(seen: usize) -> (entered: Result<(), Violation>)
    ensures
        entered == enter_outcome(seen),
{
    match ReactorState::from_raw(seen) {
        None => Err(Violation::Unintelligible),
        Some(state) => state.enter().1,
    }
}

/// What a wake handle that found `seen` in the cell returns: whether the
/// host has to be interrupted, or a violation for a number that stands for
/// no state.
pub fn judge_wake(seen: usize) -> (action: Result<WakeAction, Violation>)
    ensures
        action == wake_outcome(seen),
{
    match ReactorState::from_raw(seen) {
        None => Err(Violation::Unintelligible),
        Some(state) => Ok(state.wake().1),
    }
}

/// What the loop that found `seen` in the cell before the pump returns: the
/// timeout for the pump, or a violation.
pub fn judge_pump(seen: usize) -> (planned: Result<Timeout, Violation>)
    ensures
        planned == pump_outcome(seen),
{
    match ReactorState::from_raw(seen) {
        None => Err(Violation::Unintelligible),
        Some(state) => state.before_pump().1,
    }
}

/// What a claim that found `seen` in the cell returns: whether the future
/// has to be polled, or a violation.
pub fn judge_claim(seen: usize) -> (claimed: Result<bool, Violation>)
    ensures
        claimed == claim_outcome(seen),
{
    match ReactorState::from_raw(seen) {
        None => Err(Violation::Unintelligible),
        Some(state) => state.claim_poll().1,
    }
}

/// The number that a wake handle stores over `raw`; `None` where it leaves
/// the cell as it is.
pub fn wake_target(raw: usize) -> (target: Option<usize>)
    ensures
        target == wake_target_of(raw),
{
    match ReactorState::from_raw(raw) {
        Some(state) => {
            let (next, _) = state.wake();
            if next != state {
                Some(next.raw())
            } else {
                None
            }
        },
        None => None,
    }
}

/// `AtomicUsize::fetch_update` of std with [`wake_target`] as its function.
/// std documents that the call returns the previous value, as `Ok` where the
/// function gave a new value for it and as `Err` where it gave none; the
/// contract says that and nothing of which value was found.
#[verifier::external_body]
fn update_for_wake(cell: &AtomicUsize) -> (seen: Result<usize, usize>)
    ensures
        match seen {
            Ok(previous) => wake_target_of(previous) is Some,
            Err(previous) => wake_target_of(previous) is None,
        },
{
    cell.fetch_update(Ordering::SeqCst, Ordering::SeqCst, |raw| wake_target(raw))
}

/// The compare-and-swap of an entry: the number it looks for and the number
/// it stores. The pair is the one that takes every state to its successor
/// under an entry.
pub fn entry_exchange() -> (pair: (usize, usize))
    ensures
        forall|state: ReactorState|
            decode(exchanged(#[trigger] state.raw_spec(), pair.0, pair.1)) == Some(
                enter_next(state),
            ),
{
    (ReactorState::NotRunning.raw(), ReactorState::Notified.raw())
}

/// The compare-and-swap before the pump: the number it looks for and the
/// number it stores. The pair is the one that takes every state to its
/// successor under that step.
pub fn pump_exchange() -> (pair: (usize, usize))
    ensures
        forall|state: ReactorState|
            decode(exchanged(#[trigger] state.raw_spec(), pair.0, pair.1)) == Some(
                pump_next(state),
            ),
{
    (ReactorState::Awake.raw(), ReactorState::Asleep.raw())
}

/// The compare-and-swap on an event: the number it looks for and the number
/// it stores. The pair is the one that takes every state to its successor
/// under an event.
pub fn event_exchange() -> (pair: (usize, usize))
    ensures
        forall|state: ReactorState|
            decode(exchanged(#[trigger] state.raw_spec(), pair.0, pair.1)) == Some(
                event_next(state),
            ),
{
    (ReactorState::Asleep.raw(), ReactorState::Awake.raw())
}

/// The compare-and-swap of a claim: the number it looks for and the number
/// it stores. The pair is the one that takes every state to its successor
/// under a claim.
pub fn claim_exchange() -> (pair: (usize, usize))
    ensures
        forall|state: ReactorState|
            decode(exchanged(#[trigger] state.raw_spec(), pair.0, pair.1)) == Some(
                claim_next(state),
            ),
{
    (ReactorState::Notified.raw(), ReactorState::Awake.raw())
}

/// The number that a register at rest holds, and that the exit of a run
/// stores: the one that stands for the state after a run was left.
pub fn rest_number() -> (raw: usize)
    ensures
        forall|state: ReactorState| decode(raw) == Some(#[trigger] leave_next(state)),
{
    ReactorState::NotRunning.raw()
}

/// The value that a compare-and-swap found in the cell, whether or not it
/// stored its new value.
fn found(exchange: Result<usize, usize>) -> (seen: usize)
    ensures
        exchange == Ok::<usize, usize>(seen) || exchange == Err::<usize, usize>(seen),
{
    match exchange {
        Ok(previous) => previous,
        Err(actual) => actual,
    }
}

/// The register that a host-driven run shares with its wake handles.
pub struct Register {
    cell: AtomicUsize,
}

impl Register {
    /// A register that says `NotRunning`.
    pub fn new() -> Register {
        Register { cell: AtomicUsize::new(rest_number()) }
    }

    /// Entry of a run. Stores `Notified` where the cell said `NotRunning` and
    /// leaves every other value alone, which is then a violation: a second
    /// entry while a run is active never changes the register.
    pub fn enter(&self) -> (entered: Result<(), Violation>)
        ensures
            exists|seen: usize| entered == #[trigger] enter_outcome(seen),
    {
        let (current, new) = entry_exchange();
        let seen = found(
            self.cell.compare_exchange(current, new, Ordering::SeqCst, Ordering::SeqCst),
        );
        judge_entry(seen)
    }

    /// Exit of a run: stores `NotRunning`, whatever the cell said. The
    /// caller's scope guard calls this on every path out of the run.
    pub fn leave(&self) {
        self.cell.store(rest_number(), Ordering::Release);
    }

    /// One invocation of a wake handle: a cell that says `Asleep` or `Awake`
    /// is set to `Notified` in one atomic step, any other value stays. The
    /// result tells whether the host has to be interrupted, which is so
    /// exactly where the cell said `Asleep`.
    pub fn wake(&self) -> (action: Result<WakeAction, Violation>)
        ensures
            exists|seen: usize| action == #[trigger] wake_outcome(seen),
    {
        let seen = found(update_for_wake(&self.cell));
        judge_wake(seen)
    }

    /// The loop is about to call the host's pump: a cell that says `Awake` is
    /// set to `Asleep` by compare-and-swap, any other value stays. The result
    /// is the timeout for the pump, `Zero` where a notification is pending.
    pub fn before_pump(&self) -> (planned: Result<Timeout, Violation>)
        ensures
            exists|seen: usize| planned == #[trigger] pump_outcome(seen),
    {
        let (current, new) = pump_exchange();
        let seen = found(
            self.cell.compare_exchange(current, new, Ordering::SeqCst, Ordering::Relaxed),
        );
        judge_pump(seen)
    }

    /// The host delivered an event: a cell that says `Asleep` is set to
    /// `Awake` by compare-and-swap, any other value stays.
    pub fn on_event(&self) {
        let (current, new) = event_exchange();
        let _ = self.cell.compare_exchange(current, new, Ordering::SeqCst, Ordering::Relaxed);
    }

    /// After an event was dispatched: a cell that says `Notified` is set to
    /// `Awake` by compare-and-swap, any other value stays. The result tells
    /// whether the future has to be polled.
    pub fn claim_poll(&self) -> (claimed: Result<bool, Violation>)
        ensures
            exists|seen: usize| claimed == #[trigger] claim_outcome(seen),
    {
        let (current, new) = claim_exchange();
        let seen = found(
            self.cell.compare_exchange(current, new, Ordering::SeqCst, Ordering::SeqCst),
        );
        judge_claim(seen)
    }
}

/// The result of a run, from the poll that gave it to the end of the pump
/// call in which it came.
pub struct Run<T> {
    outcome: Option<T>,
}

/// The recorded result after a poll: a finished poll replaces it, a pending
/// one leaves it.
pub open spec fn recorded<T>(before: Option<T>, polled: Polled<T>) -> Option<T> {
    match polled {
        Polled::Ready(value) => Some(value),
        Polled::Pending => before,
    }
}

impl<T> View for Run<T> {
    type V = Option<T>;

    closed spec fn view(&self) -> Option<T> {
        self.outcome
    }
}

impl<T> Run<T> {
    /// A run without a result.
    pub fn new() -> (run: Run<T>)
        ensures
            run@ is None,
    {
        Run { outcome: None }
    }

    /// Takes note of what a poll of the composed future gave.
    pub fn record(&mut self, polled: Polled<T>)
        ensures
            final(self)@ == recorded(old(self)@, polled),
    {
        match polled {
            Polled::Ready(value) => {
                self.outcome = Some(value);
            },
            Polled::Pending => {},
        }
    }

    /// Called when the pump has returned: hands out the result, if a poll
    /// inside the pump gave one, and the loop then ends with it.
    pub fn finish(&mut self) -> (outcome: Option<T>)
        ensures
            outcome == old(self)@,
            final(self)@ is None,
    {
        self.outcome.take()
    }
}

/// Whether `delivered` and the recorded result `after` are what belongs to
/// the claim `claimed`, for a run whose recorded result was `before`. A
/// violation is handed on and nothing is polled. Without a notification
/// nothing is polled either. With one, the future is polled through `poll`
/// and what the poll gave is recorded.
pub open spec fn settled<T, P: FnOnce() -> Polled<T>>(
    claimed: Result<bool, Violation>,
    poll: P,
    before: Option<T>,
    after: Option<T>,
    delivered: Result<(), Violation>,
) -> bool {
    match claimed {
        Err(violation) => delivered == Err::<(), Violation>(violation) && after == before,
        Ok(false) => delivered == Ok::<(), Violation>(()) && after == before,
        Ok(true) => delivered == Ok::<(), Violation>(()) && exists|polled: Polled<T>|
            poll.ensures((), polled) && after == #[trigger] recorded(before, polled),
    }
}

impl<T> Run<T> {
    /// What the host's callback does with a claim, once the event has been
    /// dispatched. `claimed` is what the claim of a pending notification
    /// gave. Only where it gave one is the future polled, once, through
    /// `poll`, and what the poll gave is recorded. A violation is handed on.
    pub fn settle<P: FnOnce() -> Polled<T>>(
        &mut self,
        claimed: Result<bool, Violation>,
        poll: P,
    ) -> (delivered: Result<(), Violation>)
        requires
            claimed == Ok::<bool, Violation>(true) ==> poll.requires(()),
        ensures
            settled(claimed, poll, old(self)@, final(self)@, delivered),
    {
        match claimed {
            Err(violation) => Err(violation),
            Ok(false) => Ok(()),
            Ok(true) => {
                let polled = poll();
                self.record(polled);
                assert(self@ == recorded(old(self)@, polled));
                Ok(())
            },
        }
    }
}

impl Register {
    /// The body of the host's event callback, for one event. First the
    /// register is marked awake, then `dispatch` hands the event to the
    /// host-specific handling, then a pending notification is claimed, and
    /// `run` settles the claim: only where a notification was claimed is the
    /// future polled, once, through `poll`.
    pub fn deliver<T, D: FnOnce(), P: FnOnce() -> Polled<T>>(
        &self,
        run: &mut Run<T>,
        dispatch: D,
        poll: P,
    ) -> (delivered: Result<(), Violation>)
        requires
            dispatch.requires(()),
            poll.requires(()),
        ensures
            dispatch.ensures((), ()),
            exists|seen: usize|
                settled(#[trigger] claim_outcome(seen), poll, old(run)@, final(run)@, delivered),
    {
        self.on_event();
        dispatch();
        let claimed = self.claim_poll();
        run.settle(claimed, poll)
    }
}

/// Whether `run` is what a host-driven run gives whose entry gave
/// `entered`: a refused entry is handed on and nothing is driven, an entry
/// that succeeded gives what `drive` gave.
pub open spec fn ran<T, D: FnOnce() -> T>(
    entered: Result<(), Violation>,
    drive: D,
    run: Result<T, Violation>,
) -> bool {
    match entered {
        Err(violation) => run == Err::<T, Violation>(violation),
        Ok(_) => exists|value: T| drive.ensures((), value) && run == Ok::<T, Violation>(value),
    }
}

/// What a host-driven run does once its entry is decided. `entered` is what
/// the entry gave. A refused entry is handed on, and the future of that run
/// is never polled; otherwise `drive` runs the loop and its result is the
/// run's.
pub fn run_entered<T, D: FnOnce() -> T>(entered: Result<(), Violation>, drive: D) -> (run: Result<
    T,
    Violation,
>)
    requires
        entered is Ok ==> drive.requires(()),
    ensures
        ran(entered, drive, run),
{
    match entered {
        Err(violation) => Err(violation),
        Ok(_) => Ok(drive()),
    }
}

impl Register {
    /// A host-driven run, from entry to exit. The register is entered
    /// first. Where it was away from `NotRunning` the run is refused with the
    /// violation, the register keeps its value and `drive` is not called.
    /// Otherwise `drive` runs the loop that calls the host's pump, and the
    /// register is reset once it has returned.
    pub fn block_on<T, D: FnOnce() -> T>(&self, drive: D) -> (run: Result<T, Violation>)
        requires
            drive.requires(()),
        ensures
            exists|seen: usize| ran(#[trigger] enter_outcome(seen), drive, run),
    {
        let entered = self.enter();
        let run = run_entered(entered, drive);
        if entered.is_ok() {
            self.leave();
        }
        run
    }
}

} // verus!
