//! What a reactor offers on the platforms that let it be made freely.

pub mod any_thread;
pub mod instantiation;
mod sealed;
