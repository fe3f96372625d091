//! A reactor core for driving one top-level future inside a host event loop.
//!
//! The crate holds the decisions of the reactor: the exit signal's wait
//! protocol, the race between the user's future and that signal, the register
//! that bridges a host's event callbacks to polls of the future, the timers,
//! and the check of the calling thread. The caller owns the future and the
//! host: it performs each poll, each sleep and each call of the host's pump,
//! and hands the outcome to the functions here.

use crate::self_driven::{admission, check_thread, is_main_thread, Settings};
use crate::signal::Signal;
use std::convert::Infallible;
use vstd::prelude::*;

pub mod clock;
pub mod driver;
pub mod host_driven;
pub mod platform;
pub mod self_driven;
pub mod signal;
pub mod state;
pub mod timer;

verus! {

/// Why a run of the reactor failed.
#[derive(Clone, Copy, PartialEq, Eq, Structural, Debug)]
pub enum ReactorError {
    /// The run was started off the main thread by a reactor that is held to
    /// it.
    WrongThread,
    /// The host failed while it drove the run.
    Host,
}

/// The value produced by a reactor run that ended through the exit signal.
pub struct Finished {
    _private: (),
}

impl Finished {
    /// The one value of this type.
    pub closed spec fn value() -> Finished {
        Finished { _private: () }
    }

    /// Creates the completion value.
    pub fn new() -> (finished: Finished)
        ensures
            finished == Finished::value(),
    {
        Finished { _private: () }
    }
}

/// Checks that the calling thread is the main thread, for a reactor that is
/// held to it.
pub fn check_main_thread() -> (checked: Result<(), ReactorError>)
    ensures
        exists|on_main_thread: bool| checked == #[trigger] admission(false, on_main_thread),
{
    let on_main_thread = is_main_thread();
    let checked = check_thread(&Settings::empty(), on_main_thread);
    assert(checked == admission(false, on_main_thread));
    checked
}

/// Tells the reactor to end its run as soon as possible, by sending `signal`.
/// The caller's future then has nothing left to do but to stay pending.
pub fn exit(signal: &Signal) {
    signal.stop();
}

/// The settings with which a future is driven.
pub struct Reactor {
    pub(crate) settings: Settings,
}

impl View for Reactor {
    type V = bool;

    /// Whether the reactor may run on any thread.
    closed spec fn view(&self) -> bool {
        self.settings@
    }
}

/// What the reactor returns for what the strategy gave: an error as it is,
/// and the completion value for a run that the exit signal ended.
pub open spec fn completion(run: Result<Option<Infallible>, ReactorError>) -> Result<
    Finished,
    ReactorError,
> {
    match run {
        Err(error) => Err(error),
        Ok(_) => Ok(Finished::value()),
    }
}

/// Whether `finished` is what the reactor returns for something that `drive`
/// can give.
pub open spec fn finished_by<D: FnOnce() -> Result<Option<Infallible>, ReactorError>>(
    drive: D,
    finished: Result<Finished, ReactorError>,
) -> bool {
    exists|run: Result<Option<Infallible>, ReactorError>|
        drive.ensures((), run) && finished == #[trigger] completion(run)
}

impl Reactor {
    /// Drives a future for as long as possible. The future itself never
    /// finishes, so the run ends through the exit signal, which counts as
    /// success, or fails. `drive` blocks the thread until the composed future
    /// is done and hands its result back; it is called only after the check
    /// of the thread has passed. A reactor that may run on any thread returns
    /// what belongs to the result of `drive`; one that is held to the main
    /// thread may fail with `WrongThread` instead.
    pub fn block_on<D: FnOnce() -> Result<Option<Infallible>, ReactorError>>(
        self,
        drive: D,
    ) -> (finished: Result<Finished, ReactorError>)
        requires
            drive.requires(()),
        ensures
            self@ ==> finished_by(drive, finished),
            !self@ ==> finished == Err::<Finished, ReactorError>(ReactorError::WrongThread)
                || finished_by(drive, finished),
    {
        let run = crate::self_driven::block_on(self.settings, drive);
        let finished = match run {
            Err(error) => Err(error),
            Ok(_) => Ok(Finished::new()),
        };
        assert(finished == completion(run));
        finished
    }
}

} // verus!
