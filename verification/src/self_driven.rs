//! The self-driven strategy: the reactor blocks the calling thread itself.
//!
//! The run belongs on the thread that entered `main`, unless the settings say
//! otherwise. The check comes first: a run on the wrong thread fails before
//! anything is driven.

use crate::ReactorError;
use vstd::prelude::*;

verus! {

/// How a reactor is to run.
#[derive(Debug)]
pub struct Settings {
    any_thread: bool,
}

impl View for Settings {
    type V = bool;

    /// Whether the run may happen on any thread.
    closed spec fn view(&self) -> bool {
        self.any_thread
    }
}

impl Settings {
    /// The settings of a new reactor: it runs on the main thread only.
    pub fn empty() -> (settings: Settings)
        ensures
            !settings@,
    {
        Settings { any_thread: false }
    }

    /// The same settings, but for a run on any thread.
    pub fn on_any_thread(self) -> (settings: Settings)
        ensures
            settings@,
    {
        Settings { any_thread: true }
    }

    /// Whether the run may happen on any thread.
    pub fn any_thread(&self) -> (any_thread: bool)
        ensures
            any_thread == self@,
    {
        self.any_thread
    }
}

/// `rustix::thread::gettid`: the id that the system gave the calling thread,
/// as a plain number. It depends on the caller, so the contract claims
/// nothing of it.
#[verifier::external_body]
fn current_thread_id() -> i32 {
    rustix::thread::gettid().as_raw_nonzero().get()
}

/// `rustix::process::getpid`: the id of the process, as a plain number. It
/// depends on the process, so the contract claims nothing of it.
#[verifier::external_body]
fn process_id() -> i32 {
    rustix::process::getpid().as_raw_nonzero().get()
}

/// Whether a thread with the id `thread_id` is the main thread of the
/// process with the id `process_id`: on Linux that thread, and no other, has
/// the process's id as its own.
pub open spec fn ids_agree(thread_id: i32, process_id: i32) -> bool {
    thread_id == process_id
}

/// Whether a thread with the id `thread_id` is the main thread of the
/// process with the id `process_id`.
pub fn same_ids(thread_id: i32, process_id: i32) -> (same: bool)
    ensures
        same == ids_agree(thread_id, process_id),
{
    thread_id == process_id
}

/// Whether the calling thread is the one that entered `main`: it is so where
/// the id that the system gives for the thread is the one that it gives for
/// the process.
pub fn is_main_thread() -> (on_main_thread: bool)
    ensures
        exists|thread_id: i32, process_id: i32|
            on_main_thread == #[trigger] ids_agree(thread_id, process_id),
{
    let thread_id = current_thread_id();
    let process_id = process_id();
    let on_main_thread = same_ids(thread_id, process_id);
    assert(on_main_thread == ids_agree(thread_id, process_id));
    on_main_thread
}

/// Whether a run may start, by its settings and by whether the calling
/// thread is the main thread.
pub open spec fn admission(any_thread: bool, on_main_thread: bool) -> Result<(), ReactorError> {
    if any_thread || on_main_thread {
        Ok(())
    } else {
        Err(ReactorError::WrongThread)
    }
}

/// Decides whether a run may start. `on_main_thread` says whether the
/// calling thread is the main thread.
pub fn check_thread(settings: &Settings, on_main_thread: bool) -> (admitted: Result<
    (),
    ReactorError,
>)
    ensures
        admitted == admission(settings@, on_main_thread),
{
    if settings.any_thread || on_main_thread {
        Ok(())
    } else {
        Err(ReactorError::WrongThread)
    }
}

/// What a run gives that was started with `settings` on a thread of which
/// `on_main_thread` says whether it is the main thread: the failure of the
/// admission, or else whatever `drive` gave.
pub open spec fn run_outcome<T, D: FnOnce() -> Result<Option<T>, ReactorError>>(
    settings: Settings,
    on_main_thread: bool,
    drive: D,
    run: Result<Option<T>, ReactorError>,
) -> bool {
    match admission(settings@, on_main_thread) {
        Err(error) => run == Err::<Option<T>, ReactorError>(error),
        Ok(_) => drive.ensures((), run),
    }
}

/// Runs the reactor on a thread of which `on_main_thread` says whether it is
/// the main thread. `drive` blocks the thread until the composed future is
/// done and hands its result back; it is called only after the run was
/// admitted.
pub fn block_on_from<T, D: FnOnce() -> Result<Option<T>, ReactorError>>(
    settings: Settings,
    on_main_thread: bool,
    drive: D,
) -> (run: Result<Option<T>, ReactorError>)
    requires
        admission(settings@, on_main_thread) is Ok ==> drive.requires(()),
    ensures
        run_outcome(settings, on_main_thread, drive, run),
{
    match check_thread(&settings, on_main_thread) {
        Err(error) => Err(error),
        Ok(_) => drive(),
    }
}

/// Runs the reactor on the calling thread. The thread is looked at only
/// where the settings ask for the main thread.
pub fn block_on<T, D: FnOnce() -> Result<Option<T>, ReactorError>>(
    settings: Settings,
    drive: D,
) -> (run: Result<Option<T>, ReactorError>)
    requires
        drive.requires(()),
    ensures
        exists|on_main_thread: bool| #[trigger] run_outcome(settings, on_main_thread, drive, run),
        settings@ ==> drive.ensures((), run),
{
    // A reactor that may run on any thread does not look at its thread.
    let on_main_thread = settings.any_thread || is_main_thread();
    let run = block_on_from(settings, on_main_thread, drive);
    assert(run_outcome(settings, on_main_thread, drive, run));
    run
}

} // verus!
