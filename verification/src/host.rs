//! What a workflow needs from its surroundings: a place to emit text, and a
//! way to start fetching a resource.

use vstd::prelude::*;
use crate::future::Future;

verus! {

/// One thing that a host was asked to do.
pub enum Effect {
    /// A line of text was emitted.
    Emitted(Seq<char>),
    /// A fetch of the resource with this identifier was constructed.
    Requested(Seq<char>),
}

/// Everything that a host was asked to do, oldest first.
pub type Trace = Seq<Effect>;

/// A text or a resource identifier, as contracts speak of it.
pub type Text = Seq<char>;

/// The surroundings of a workflow.
///
/// The trace is a history of the calls made on the host. Verified code can
/// lengthen it only by making a call, so a contract that speaks of the trace
/// says which calls were made, with which arguments and in which order.
pub trait Host {
    /// The computation that fetches a resource.
    type Fetch: Future<Output = String>;

    /// The calls made on this host so far. It is ghost code: an
    /// implementation that is not verified gives it any body, which is
    /// never run.
    spec fn effects(&self) -> Trace;

    /// Whether emitting `text` can take the host from `self` to `after`.
    /// Ghost code, as `effects`.
    spec fn emits(&self, text: Text, after: &Self) -> bool;

    /// Whether a request for `path` can take the host from `self` to `after`
    /// and give `fetch`. Ghost code, as `effects`.
    spec fn gets(&self, path: Text, after: &Self, fetch: &Self::Fetch) -> bool;

    /// Emits one line of text.
    fn emit(&mut self, text: &str)
        ensures
            final(self).effects() == old(self).effects().push(Effect::Emitted(text@)),
            old(self).emits(text@, final(self)),
    ;

    /// Constructs the computation that fetches the resource `path`. The
    /// computation returned has not been polled: it is unresolved.
    fn get(&mut self, path: &str) -> (fetch: Self::Fetch)
        ensures
            final(self).effects() == old(self).effects().push(Effect::Requested(path@)),
            !fetch.resolved(),
            old(self).gets(path@, final(self), &fetch),
    ;
}

/// One call of `emit`: the host went from `before` to `after`, and the
/// trace grew by the emission of `text`.
pub open spec fn emitted<H: Host>(before: &H, text: Seq<char>, after: &H) -> bool {
    &&& before.emits(text, after)
    &&& after.effects() == before.effects().push(Effect::Emitted(text))
}

/// One call of `get`: the host went from `before` to `after` and gave the
/// unresolved `fetch`, and the trace grew by the request for `path`.
pub open spec fn got<H: Host>(before: &H, path: Seq<char>, after: &H, fetch: &H::Fetch) -> bool {
    &&& before.gets(path, after, fetch)
    &&& after.effects() == before.effects().push(Effect::Requested(path))
    &&& !fetch.resolved()
}

} // verus!
