//! The pollable computation and the outcome of one poll.

use vstd::prelude::*;

verus! {

/// Outcome of a single poll.
pub enum PollState<T> {
    /// The computation has produced its value. It must not be polled again.
    Ready(T),
    /// The computation has not finished. The caller retries later; nothing
    /// says when.
    NotReady,
}

/// A unit of work that is advanced by repeated, non-blocking polls.
///
/// A computation answers `Ready` at most once. Readiness can only be found
/// out by polling: there is no other query, and no notification.
pub trait Future {
    type Output;

    /// Whether the computation has given its value. It is ghost code: an
    /// implementation that is not verified gives it any body, never run.
    spec fn resolved(&self) -> bool;

    /// Whether one poll can return `outcome` and take the computation from
    /// `self` to `after`. Ghost code, as `resolved`.
    spec fn polls_to(&self, outcome: PollState<Self::Output>, after: &Self) -> bool;

    /// Makes progress without blocking and reports whether the value is
    /// there. Polling a resolved computation is forbidden.
    fn poll(&mut self) -> (outcome: PollState<Self::Output>)
        requires
            !old(self).resolved(),
        ensures
            final(self).resolved() == (outcome is Ready),
            old(self).polls_to(outcome, final(self)),
    ;
}

/// An owning indirection is a computation too.
impl<F: Future + ?Sized> Future for Box<F> {
    type Output = F::Output;

    /// A poll of the box is one poll of the computation that it holds: it
    /// returns what that poll returns, and leaves that computation as that
    /// poll leaves it.
    fn poll(&mut self) -> (outcome: PollState<F::Output>)
        ensures
            (**old(self)).polls_to(outcome, &**final(self)),
            (**final(self)).resolved() == (outcome is Ready),
    {
        (**self).poll()
    }

    open spec fn resolved(&self) -> bool {
        (**self).resolved()
    }

    open spec fn polls_to(&self, outcome: PollState<F::Output>, after: &Self) -> bool {
        (**self).polls_to(outcome, &**after)
    }
}

/// One allowed poll of a computation: it was unresolved, the poll returned
/// `outcome` and left `after`, which is resolved exactly on `Ready`.
pub open spec fn answered<F: Future>(before: &F, outcome: PollState<F::Output>, after: &F) -> bool {
    &&& !before.resolved()
    &&& before.polls_to(outcome, after)
    &&& after.resolved() == (outcome is Ready)
}

} // verus!
