//! The four-valued register of a host-driven run, as plain values.
//!
//! A host-driven run shares one register with its wake handles. Every step of
//! the run and every wake is one atomic update of that register; this module
//! says, for each such update, what it turns each value into and what the
//! caller has to do next. [`crate::host_driven::Register`] applies these
//! functions to a shared atomic cell.

use vstd::prelude::*;

verus! {

/// What the register of a host-driven run holds.
#[derive(Clone, Copy, PartialEq, Eq, Structural, Debug)]
pub enum ReactorState {
    /// No run is in progress.
    NotRunning,
    /// The future has to be polled at the next opportunity.
    Notified,
    /// The host is blocked in its event pump on behalf of the run.
    Asleep,
    /// The run is between host calls and has nothing pending.
    Awake,
}

/// An observation that the protocol rules out.
#[derive(Clone, Copy, PartialEq, Eq, Structural, Debug)]
pub enum Violation {
    /// A run was entered while the register was away from `NotRunning`.
    DoubleEntry,
    /// A step of the running loop found the register in a state that the
    /// loop cannot be in at that step.
    OutOfStep,
    /// The cell held a number that stands for no state.
    Unintelligible,
}

/// How long the host may block in its event pump.
#[derive(Clone, Copy, PartialEq, Eq, Structural, Debug)]
pub enum Timeout {
    /// Return at once: a poll is already due.
    Zero,
    /// Block until the host has an event or a wake interrupts it.
    Unbounded,
}

/// What a wake handle owes the host after it has updated the register.
#[derive(Clone, Copy, PartialEq, Eq, Structural, Debug)]
pub enum WakeAction {
    /// The run will notice by itself, or there is no run.
    Nothing,
    /// The host is blocked and has to be interrupted.
    WakeHost,
}

/// The number that stands for `NotRunning` in the shared cell.
pub const NOT_RUNNING: usize = 0;

/// The number that stands for `Notified` in the shared cell.
pub const NOTIFIED: usize = 1;

/// The number that stands for `Asleep` in the shared cell.
pub const ASLEEP: usize = 2;

/// The number that stands for `Awake` in the shared cell.
pub const AWAKE: usize = 3;

/// The state that a number of the shared cell stands for, if any.
pub open spec fn decode(raw: usize) -> Option<ReactorState> {
    if raw == NOT_RUNNING {
        Some(ReactorState::NotRunning)
    } else if raw == NOTIFIED {
        Some(ReactorState::Notified)
    } else if raw == ASLEEP {
        Some(ReactorState::Asleep)
    } else if raw == AWAKE {
        Some(ReactorState::Awake)
    } else {
        None
    }
}

/// The register after an entry was attempted: only `NotRunning` gives way.
pub open spec fn enter_next(s: ReactorState) -> ReactorState {
    match s {
        ReactorState::NotRunning => ReactorState::Notified,
        _ => s,
    }
}

/// Whether the entry that found the register at `s` may go on.
pub open spec fn enter_result(s: ReactorState) -> Result<(), Violation> {
    match s {
        ReactorState::NotRunning => Ok(()),
        _ => Err(Violation::DoubleEntry),
    }
}

/// The register after a run was left.
pub open spec fn leave_next(s: ReactorState) -> ReactorState {
    ReactorState::NotRunning
}

/// The register after a wake handle was invoked on it.
pub open spec fn wake_next(s: ReactorState) -> ReactorState {
    match s {
        ReactorState::NotRunning => ReactorState::NotRunning,
        _ => ReactorState::Notified,
    }
}

/// What the wake handle that found the register at `s` owes the host.
pub open spec fn wake_action(s: ReactorState) -> WakeAction {
    if s == ReactorState::Asleep {
        WakeAction::WakeHost
    } else {
        WakeAction::Nothing
    }
}

/// The register after the loop prepared to call the host's pump.
pub open spec fn pump_next(s: ReactorState) -> ReactorState {
    match s {
        ReactorState::Awake => ReactorState::Asleep,
        _ => s,
    }
}

/// The timeout handed to the host's pump, by the register that the loop found.
pub open spec fn pump_timeout(s: ReactorState) -> Result<Timeout, Violation> {
    match s {
        ReactorState::Notified => Ok(Timeout::Zero),
        ReactorState::Awake | ReactorState::Asleep => Ok(Timeout::Unbounded),
        ReactorState::NotRunning => Err(Violation::OutOfStep),
    }
}

/// The register after the host delivered an event.
pub open spec fn event_next(s: ReactorState) -> ReactorState {
    match s {
        ReactorState::Asleep => ReactorState::Awake,
        _ => s,
    }
}

/// The register after the loop, inside the host's callback, claimed a pending
/// notification.
pub open spec fn claim_next(s: ReactorState) -> ReactorState {
    match s {
        ReactorState::Notified => ReactorState::Awake,
        _ => s,
    }
}

/// Whether the loop has to poll the future, by the register that its claim
/// found.
pub open spec fn claim_polls(s: ReactorState) -> Result<bool, Violation> {
    match s {
        ReactorState::Notified => Ok(true),
        ReactorState::Awake => Ok(false),
        ReactorState::Asleep | ReactorState::NotRunning => Err(Violation::OutOfStep),
    }
}

impl ReactorState {
    /// The number that stands for this state in the shared cell.
    pub open spec fn raw_spec(self) -> usize {
        match self {
            ReactorState::NotRunning => NOT_RUNNING,
            ReactorState::Notified => NOTIFIED,
            ReactorState::Asleep => ASLEEP,
            ReactorState::Awake => AWAKE,
        }
    }

    /// True of every state but `NotRunning`.
    pub open spec fn is_running(self) -> bool {
        self != ReactorState::NotRunning
    }

    /// The number that stands for this state in the shared cell.
    #[verifier::when_used_as_spec(raw_spec)]
    pub fn raw(self) -> (raw: usize)
        ensures
            raw == self.raw_spec(),
            decode(raw) == Some(self),
    {
        match self {
            ReactorState::NotRunning => NOT_RUNNING,
            ReactorState::Notified => NOTIFIED,
            ReactorState::Asleep => ASLEEP,
            ReactorState::Awake => AWAKE,
        }
    }

    /// Reads a number of the shared cell back; `None` where it stands for no
    /// state.
    pub fn from_raw(raw: usize) -> (state: Option<ReactorState>)
        ensures
            state == decode(raw),
            state matches Some(s) ==> s.raw_spec() == raw,
    {
        if raw == NOT_RUNNING {
            Some(ReactorState::NotRunning)
        } else if raw == NOTIFIED {
            Some(ReactorState::Notified)
        } else if raw == ASLEEP {
            Some(ReactorState::Asleep)
        } else if raw == AWAKE {
            Some(ReactorState::Awake)
        } else {
            None
        }
    }

    /// Entry of a run: from `NotRunning` the register goes to `Notified`, so
    /// that the first poll happens at once. From any other state the entry is
    /// refused and the register keeps its value.
    pub fn enter(self) -> (entered: (ReactorState, Result<(), Violation>))
        ensures
            entered.0 == enter_next(self),
            entered.1 == enter_result(self),
    {
        match self {
            ReactorState::NotRunning => (ReactorState::Notified, Ok(())),
            _ => (self, Err(Violation::DoubleEntry)),
        }
    }

    /// Exit of a run, on every path: the register goes back to `NotRunning`.
    pub fn leave(self) -> (left: ReactorState)
        ensures
            left == leave_next(self),
    {
        ReactorState::NotRunning
    }

    /// One invocation of a wake handle. Without a run it does nothing. A run
    /// is left `Notified`, and the host has to be interrupted exactly when the
    /// register was `Asleep`.
    pub fn wake(self) -> (woken: (ReactorState, WakeAction))
        ensures
            woken.0 == wake_next(self),
            woken.1 == wake_action(self),
    {
        match self {
            ReactorState::NotRunning => (ReactorState::NotRunning, WakeAction::Nothing),
            ReactorState::Asleep => (ReactorState::Notified, WakeAction::WakeHost),
            ReactorState::Awake | ReactorState::Notified => (
                ReactorState::Notified,
                WakeAction::Nothing,
            ),
        }
    }

    /// The loop is about to call the host's pump. A pending notification
    /// stays in place and the pump must not block. Otherwise the register is
    /// marked `Asleep` and the pump may block without bound.
    pub fn before_pump(self) -> (planned: (ReactorState, Result<Timeout, Violation>))
        ensures
            planned.0 == pump_next(self),
            planned.1 == pump_timeout(self),
    {
        match self {
            ReactorState::Notified => (ReactorState::Notified, Ok(Timeout::Zero)),
            ReactorState::Awake | ReactorState::Asleep => (
                ReactorState::Asleep,
                Ok(Timeout::Unbounded),
            ),
            ReactorState::NotRunning => (ReactorState::NotRunning, Err(Violation::OutOfStep)),
        }
    }

    /// The host delivered an event: a register that was `Asleep` is `Awake`
    /// again, any other value stays.
    pub fn on_event(self) -> (next: ReactorState)
        ensures
            next == event_next(self),
    {
        match self {
            ReactorState::Asleep => ReactorState::Awake,
            _ => self,
        }
    }

    /// After an event was dispatched: a pending notification is taken, which
    /// leaves the register `Awake`, and the future has to be polled once.
    /// Without one nothing changes and nothing is polled.
    pub fn claim_poll(self) -> (claimed: (ReactorState, Result<bool, Violation>))
        ensures
            claimed.0 == claim_next(self),
            claimed.1 == claim_polls(self),
    {
        match self {
            ReactorState::Notified => (ReactorState::Awake, Ok(true)),
            ReactorState::Awake => (ReactorState::Awake, Ok(false)),
            ReactorState::Asleep | ReactorState::NotRunning => (self, Err(Violation::OutOfStep)),
        }
    }
}

/// One atomic update of the register while a run is active.
#[derive(Clone, Copy, PartialEq, Eq, Structural, Debug)]
pub enum Step {
    /// A wake handle was invoked, on any thread.
    Wake,
    /// The loop prepared to call the host's pump.
    BeforePump,
    /// The host delivered an event.
    Event,
    /// The loop claimed a pending notification.
    Claim,
}

/// The register after one update.
pub open spec fn step_next(s: ReactorState, step: Step) -> ReactorState {
    match step {
        Step::Wake => wake_next(s),
        Step::BeforePump => pump_next(s),
        Step::Event => event_next(s),
        Step::Claim => claim_next(s),
    }
}

/// The register after the updates of `steps`, applied in their order to a
/// register that starts at `s`.
pub open spec fn after_steps(s: ReactorState, steps: Seq<Step>) -> ReactorState
    decreases steps.len(),
{
    if steps.len() == 0 {
        s
    } else {
        step_next(after_steps(s, steps.drop_last()), steps.last())
    }
}

/// Whether the update `step`, applied at `s`, is a wake that has to interrupt
/// the host.
pub open spec fn step_wakes_host(s: ReactorState, step: Step) -> bool {
    step == Step::Wake && wake_action(s) == WakeAction::WakeHost
}

/// How often the host is interrupted in the course of `steps`.
pub open spec fn host_wakes(s: ReactorState, steps: Seq<Step>) -> nat
    decreases steps.len(),
{
    if steps.len() == 0 {
        0
    } else {
        let before = steps.drop_last();
        let one: nat = if step_wakes_host(after_steps(s, before), steps.last()) {
            1
        } else {
            0
        };
        host_wakes(s, before) + one
    }
}

/// How often the register goes from `Asleep` to `Notified` in the course of
/// `steps`.
pub open spec fn sleep_interruptions(s: ReactorState, steps: Seq<Step>) -> nat
    decreases steps.len(),
{
    if steps.len() == 0 {
        0
    } else {
        let before = steps.drop_last();
        let at = after_steps(s, before);
        let one: nat = if at == ReactorState::Asleep && step_next(at, steps.last())
            == ReactorState::Notified {
            1
        } else {
            0
        };
        sleep_interruptions(s, before) + one
    }
}

/// How often the loop falls asleep in the course of `steps`.
pub open spec fn sleeps(s: ReactorState, steps: Seq<Step>) -> nat
    decreases steps.len(),
{
    if steps.len() == 0 {
        0
    } else {
        let before = steps.drop_last();
        let at = after_steps(s, before);
        let one: nat = if at == ReactorState::Awake && steps.last() == Step::BeforePump {
            1
        } else {
            0
        };
        sleeps(s, before) + one
    }
}

/// No update of an active run, and no wake, ever leaves the register at
/// `NotRunning`: between entry and exit the register is away from it.
pub proof fn lemma_run_stays_away_from_not_running(s: ReactorState, steps: Seq<Step>)
    requires
        s.is_running(),
    ensures
        after_steps(s, steps).is_running(),
    decreases steps.len(),
{
    if steps.len() > 0 {
        lemma_run_stays_away_from_not_running(s, steps.drop_last());
    }
}

/// Double entry: whatever an active run and its wake handles have done since
/// the run was entered, a second entry is refused as a violation and leaves
/// the register as it found it.
pub proof fn lemma_overlapping_entry_is_refused(steps: Seq<Step>)
    ensures
        enter_result(ReactorState::NotRunning) is Ok,
        enter_result(after_steps(enter_next(ReactorState::NotRunning), steps)) == Err::<
            (),
            Violation,
        >(Violation::DoubleEntry),
        enter_next(after_steps(enter_next(ReactorState::NotRunning), steps)) == after_steps(
            enter_next(ReactorState::NotRunning),
            steps,
        ),
{
    lemma_run_stays_away_from_not_running(ReactorState::Notified, steps);
}

/// A run that was left, in whatever state, can be followed by another at
/// once: the next entry succeeds.
pub proof fn lemma_left_run_can_be_followed(s: ReactorState)
    ensures
        enter_result(leave_next(s)) is Ok,
        enter_next(leave_next(s)) == ReactorState::Notified,
{
}

/// Without a run a wake is dropped: the register stays at `NotRunning` and
/// the host is left alone, so the next entry still succeeds.
pub proof fn lemma_wake_without_run_is_dropped()
    ensures
        wake_next(ReactorState::NotRunning) == ReactorState::NotRunning,
        wake_action(ReactorState::NotRunning) == WakeAction::Nothing,
{
}

/// Wake coalescing: any number of wakes on a register that says `Notified`
/// leaves it `Notified`, and none of them interrupts the host.
pub proof fn lemma_wakes_coalesce(steps: Seq<Step>)
    requires
        forall|i: int| 0 <= i < steps.len() ==> steps[i] == Step::Wake,
    ensures
        after_steps(ReactorState::Notified, steps) == ReactorState::Notified,
        host_wakes(ReactorState::Notified, steps) == 0,
    decreases steps.len(),
{
    if steps.len() > 0 {
        lemma_wakes_coalesce(steps.drop_last());
    }
}

/// The host is interrupted once for each move of the register from `Asleep`
/// to `Notified` and at no other time.
pub proof fn lemma_one_host_wake_per_interrupted_sleep(s: ReactorState, steps: Seq<Step>)
    ensures
        host_wakes(s, steps) == sleep_interruptions(s, steps),
    decreases steps.len(),
{
    if steps.len() > 0 {
        lemma_one_host_wake_per_interrupted_sleep(s, steps.drop_last());
    }
}

/// The host is never interrupted more often than the loop fell asleep: a
/// sleep that one wake has interrupted is not interrupted again.
pub proof fn lemma_host_wakes_bounded_by_sleeps(s: ReactorState, steps: Seq<Step>)
    requires
        s != ReactorState::Asleep,
    ensures
        host_wakes(s, steps) <= sleeps(s, steps),
        after_steps(s, steps) == ReactorState::Asleep ==> host_wakes(s, steps) < sleeps(s, steps),
    decreases steps.len(),
{
    if steps.len() > 0 {
        lemma_host_wakes_bounded_by_sleeps(s, steps.drop_last());
    }
}

/// A wake that races with the loop going to sleep is not lost. If the wake
/// comes first, the loop finds the notification and its pump does not block.
/// If the loop comes first and is allowed to block, the wake finds the
/// register `Asleep` and interrupts the host.
pub proof fn lemma_wake_beside_sleep_is_not_lost(s: ReactorState)
    requires
        s.is_running(),
    ensures
        pump_timeout(wake_next(s)) == Ok::<Timeout, Violation>(Timeout::Zero),
        pump_timeout(s) == Ok::<Timeout, Violation>(Timeout::Unbounded) ==> wake_action(
            pump_next(s),
        ) == WakeAction::WakeHost,
{
}

/// The host's callback marks the register awake before the future is polled:
/// a wake that arrives from inside the poll therefore never interrupts the
/// host, and the loop's next pump does not block.
pub proof fn lemma_wake_during_poll_needs_no_host(s: ReactorState)
    requires
        claim_polls(event_next(s)) == Ok::<bool, Violation>(true),
    ensures
        claim_next(event_next(s)) == ReactorState::Awake,
        wake_action(claim_next(event_next(s))) == WakeAction::Nothing,
        pump_timeout(wake_next(claim_next(event_next(s)))) == Ok::<Timeout, Violation>(
            Timeout::Zero,
        ),
{
}

} // verus!
