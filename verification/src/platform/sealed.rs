//! The seal on the extension traits of [`crate::Reactor`].

use crate::Reactor;
use vstd::prelude::*;

verus! {

/// Implemented by the types that the extension traits are meant for, and by
/// no others.
pub trait Sealed {

}

impl Sealed for Reactor {

}

} // verus!
