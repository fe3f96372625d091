//! The combinator that races the user's future against the exit signal.

use vstd::prelude::*;

verus! {

/// What one poll of a future gave.
#[derive(Debug)]
pub enum Polled<T> {
    /// The future is not done; it will wake its waker.
    Pending,
    /// The future is done, with this value.
    Ready(T),
}

/// What the composed future gives for the two polls: the user's value where
/// the user's future is done, `None` where only the exit signal has fired.
pub open spec fn race_of<T>(user: Polled<T>, exit: Polled<()>) -> Polled<Option<T>> {
    match user {
        Polled::Ready(value) => Polled::Ready(Some(value)),
        Polled::Pending => match exit {
            Polled::Ready(_) => Polled::Ready(None),
            Polled::Pending => Polled::Pending,
        },
    }
}

/// One poll of the composed future. `user` is what the poll of the user's
/// future gave. The exit signal's wait is polled, through `poll_exit`, only
/// where the user's future is still pending, so a finished user future wins
/// whatever the signal's state.
pub fn race<T, E: FnOnce() -> Polled<()>>(user: Polled<T>, poll_exit: E) -> (composed: Polled<
    Option<T>,
>)
    requires
        user is Pending ==> poll_exit.requires(()),
    ensures
        user is Ready ==> forall|exit: Polled<()>| composed == #[trigger] race_of(user, exit),
        user is Pending ==> exists|exit: Polled<()>|
            poll_exit.ensures((), exit) && composed == #[trigger] race_of(user, exit),
{
    match user {
        Polled::Ready(value) => Polled::Ready(Some(value)),
        Polled::Pending => {
            let exit = poll_exit();
            let composed = match exit {
                Polled::Ready(_) => Polled::Ready(None),
                Polled::Pending => Polled::Pending,
            };
            assert(composed == race_of(Polled::<T>::Pending, exit));
            composed
        },
    }
}

/// The race is biased to the user's future: once it is done, the composed
/// future is done with its value, whether or not the exit signal has fired.
pub proof fn lemma_finished_future_wins<T>(value: T, exit: Polled<()>)
    ensures
        race_of(Polled::Ready(value), exit) == Polled::Ready(Some(value)),
{
}

/// While the user's future is pending, the composed future is done exactly
/// when the exit signal has fired, and then with `None`.
pub proof fn lemma_exit_ends_pending_future<T>(exit: Polled<()>)
    ensures
        exit is Ready ==> race_of(Polled::<T>::Pending, exit) == Polled::<Option<T>>::Ready(None),
        exit is Pending ==> race_of(Polled::<T>::Pending, exit) == Polled::<Option<T>>::Pending,
{
}

} // verus!
