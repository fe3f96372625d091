//! Reactors that can be made without a handle of the host.

use crate::platform::sealed::Sealed;
use crate::self_driven::Settings;
use crate::Reactor;
use vstd::prelude::*;

verus! {

/// Lets a reactor be made freely.
pub trait ReactorExt: Sized + Sealed {
    /// Whether this reactor is held to the main thread.
    spec fn keeps_to_main_thread(&self) -> bool;

    /// A reactor with the default settings: it runs on the main thread only.
    fn new() -> (reactor: Self)
        ensures
            reactor.keeps_to_main_thread(),
    ;
}

impl ReactorExt for Reactor {
    open spec fn keeps_to_main_thread(&self) -> bool {
        !self@
    }

    fn new() -> (reactor: Reactor) {
        Reactor { settings: Settings::empty() }
    }
}

} // verus!
