//! Reactors that may run on any thread.

use crate::platform::sealed::Sealed;
use crate::Reactor;
use vstd::prelude::*;

verus! {

/// Lets a reactor run on a thread other than the main thread.
pub trait ReactorExt: Sized + Sealed {
    /// Whether this reactor may run on any thread.
    spec fn runs_on_any_thread(&self) -> bool;

    /// Removes the guard that keeps this reactor on the main thread.
    fn with_any_thread(self) -> (relaxed: Self)
        ensures
            relaxed.runs_on_any_thread(),
    ;
}

impl ReactorExt for Reactor {
    open spec fn runs_on_any_thread(&self) -> bool {
        self@
    }

    fn with_any_thread(self) -> (relaxed: Reactor) {
        Reactor { settings: self.settings.on_any_thread() }
    }
}

} // verus!
