//! Cooperative, non-blocking execution of a two-step workflow: a pollable
//! computation, a workflow that sequences two of them as a hand-written
//! state machine, and the decision that a driving loop takes after each
//! poll.
//!
//! The workflow reaches its surroundings through a [`Host`], which emits
//! text and constructs fetches. What a poll asks of the host, and in which
//! order, is part of every contract: [`Future::polls_to`] of a workflow says
//! what one poll does with its sub-computations and its host,
//! [`workflow::turn`] what that comes to for given answers, and [`history`]
//! what holds of every sequence of polls, and of every poll on the scripted
//! host.

pub mod future;
pub mod host;
pub mod workflow;
pub mod driver;
pub mod history;
pub mod scripted;

pub use crate::driver::after_poll;
pub use crate::driver::Directive;
pub use crate::driver::IDLE_INTERVAL_MILLIS;
pub use crate::driver::IDLE_MARKER;
pub use crate::future::Future;
pub use crate::future::PollState;
pub use crate::host::Effect;
pub use crate::host::Host;
pub use crate::host::Text;
pub use crate::host::Trace;
pub use crate::scripted::Delayed;
pub use crate::scripted::Entry;
pub use crate::scripted::Plan;
pub use crate::scripted::Scripted;
pub use crate::workflow::async_main;
pub use crate::workflow::Coroutine;
pub use crate::workflow::Stage;
pub use crate::workflow::FIRST_PATH;
pub use crate::workflow::SECOND_PATH;
pub use crate::workflow::START_MARKER;
