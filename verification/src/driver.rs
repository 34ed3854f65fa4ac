//! The decision of the driving loop.

use vstd::prelude::*;
use crate::future::PollState;

verus! {

/// The line that the driving loop prints before it idles.
pub const IDLE_MARKER: &'static str = "Schedule other tasks";

/// How long the driving loop idles before it polls again, in milliseconds.
/// There is no wake-up notification, so the interval trades responsiveness
/// against busy polling; nothing depends on its value.
pub const IDLE_INTERVAL_MILLIS: u64 = 100;

/// What the driving loop does once a poll has returned.
#[derive(Clone, Copy, Debug, PartialEq, Eq, Structural)]
pub enum Directive {
    /// Not ready: do other work, wait the idle interval, poll again.
    Idle,
    /// Ready: stop polling. The computation has completed.
    Stop,
}

/// The directive that follows an outcome. The loop never looks at why a
/// computation is not ready.
pub open spec fn directive<T>(outcome: PollState<T>) -> Directive {
    match outcome {
        PollState::NotReady => Directive::Idle,
        PollState::Ready(_) => Directive::Stop,
    }
}

/// Decides how the driving loop goes on after `outcome`.
pub fn after_poll<T>(outcome: &PollState<T>) -> (next: Directive)
    ensures
        next == directive(*outcome),
{
    match outcome {
        PollState::NotReady => Directive::Idle,
        PollState::Ready(_) => Directive::Stop,
    }
}

} // verus!
