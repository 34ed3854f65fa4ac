//! The workflow: two fetches, one after the other, as a state machine that
//! is itself a pollable computation.

use vstd::prelude::*;
use crate::future::answered;
use crate::future::Future;
use crate::future::PollState;
use crate::host::emitted;
use crate::host::got;
use crate::host::Effect;
use crate::host::Host;
use crate::host::Trace;

verus! {

/// The line that a workflow emits when it starts.
pub const START_MARKER: &'static str = "Program starting";

/// The resource that the first sub-computation fetches.
pub const FIRST_PATH: &'static str = "/600/HelloWorld1";

/// The resource that the second sub-computation fetches.
pub const SECOND_PATH: &'static str = "/400/HelloWorld2";

/// How far a workflow has come.
#[derive(Clone, Copy, Debug, PartialEq, Eq, Structural)]
pub enum Stage {
    /// No work has begun.
    Start,
    /// The first sub-computation is in flight.
    WaitingOnFirst,
    /// The first sub-computation has resolved, the second is in flight.
    WaitingOnSecond,
    /// The workflow has finished. It must not be polled again.
    Resolved,
}

/// What one poll of a workflow does.
pub struct Turn {
    /// The stage in which the poll leaves the workflow.
    pub stage: Stage,
    /// What the poll asks of the host, in order.
    pub effects: Trace,
    /// What the poll returns.
    pub outcome: PollState<()>,
}

/// Leaving `Start`: the start marker, then the first fetch.
pub open spec fn opening() -> Trace {
    seq![Effect::Emitted(START_MARKER@), Effect::Requested(FIRST_PATH@)]
}

/// The first sub-computation gave `text`: the text is emitted, and only then
/// is the second fetch constructed.
pub open spec fn handover(text: Seq<char>) -> Trace {
    seq![Effect::Emitted(text), Effect::Requested(SECOND_PATH@)]
}

/// The second sub-computation gave `text`: the text is emitted.
pub open spec fn closing(text: Seq<char>) -> Trace {
    seq![Effect::Emitted(text)]
}

/// A poll that finds the second sub-computation in flight, which answers
/// `second`.
pub open spec fn turn_on_second(second: PollState<Seq<char>>) -> Turn {
    match second {
        PollState::Ready(text) => Turn {
            stage: Stage::Resolved,
            effects: closing(text),
            outcome: PollState::Ready(()),
        },
        PollState::NotReady => Turn {
            stage: Stage::WaitingOnSecond,
            effects: Seq::empty(),
            outcome: PollState::NotReady,
        },
    }
}

/// A poll that finds the first sub-computation in flight, which answers
/// `first`. Where that is a text, the same poll goes on to the second
/// sub-computation, which answers `second`.
pub open spec fn turn_on_first(
    first: PollState<Seq<char>>,
    second: PollState<Seq<char>>,
) -> Turn {
    match first {
        PollState::Ready(text) => {
            let rest = turn_on_second(second);
            Turn { stage: rest.stage, effects: handover(text) + rest.effects, outcome: rest.outcome }
        },
        PollState::NotReady => Turn {
            stage: Stage::WaitingOnFirst,
            effects: Seq::empty(),
            outcome: PollState::NotReady,
        },
    }
}

/// One poll of a workflow in `stage`, during which the first
/// sub-computation, if it is polled, answers `first`, and the second, if it
/// is polled, answers `second`.
///
/// Leaving `Start` costs no poll: the same call goes on to poll the first
/// sub-computation. Only a sub-computation that is not ready suspends the
/// workflow.
pub open spec fn turn(
    stage: Stage,
    first: PollState<Seq<char>>,
    second: PollState<Seq<char>>,
) -> Turn
    recommends
        stage !is Resolved,
{
    match stage {
        Stage::Start => {
            let rest = turn_on_first(first, second);
            Turn { stage: rest.stage, effects: opening() + rest.effects, outcome: rest.outcome }
        },
        Stage::WaitingOnFirst => turn_on_first(first, second),
        Stage::WaitingOnSecond => turn_on_second(second),
        Stage::Resolved => Turn {
            stage: Stage::Resolved,
            effects: Seq::empty(),
            outcome: PollState::NotReady,
        },
    }
}

/// Whether a poll can lead from `before` to `after` with `outcome`: whether
/// it is the turn for some answers of the sub-computations.
pub open spec fn polled(
    before: Stage,
    trace_before: Trace,
    after: Stage,
    trace_after: Trace,
    outcome: PollState<()>,
) -> bool {
    exists|first: PollState<Seq<char>>, second: PollState<Seq<char>>|
        {
            let t = #[trigger] turn(before, first, second);
            &&& after == t.stage
            &&& trace_after == trace_before + t.effects
            &&& outcome == t.outcome
        }
}

/// The text that an answer carries, as a sequence of characters.
spec fn text_of(answer: PollState<String>) -> PollState<Seq<char>> {
    match answer {
        PollState::Ready(text) => PollState::Ready(text@),
        PollState::NotReady => PollState::NotReady,
    }
}

/// Leaving `Start` on the host `before`: the start marker is emitted, then
/// the fetch `first` is constructed, which leaves the host as `after`.
pub open spec fn began<H: Host>(before: &H, after: &H, first: &H::Fetch) -> bool {
    exists|between: H| #[trigger]
        emitted(before, START_MARKER@, &between) && got(&between, FIRST_PATH@, after, first)
}

/// The first sub-computation gave `text` on the host `before`: the text is
/// emitted, then the fetch `second` is constructed, which leaves the host as
/// `after`.
pub open spec fn handed_over<H: Host>(
    before: &H,
    text: Seq<char>,
    after: &H,
    second: &H::Fetch,
) -> bool {
    exists|between: H| #[trigger]
        emitted(before, text, &between) && got(&between, SECOND_PATH@, after, second)
}

/// The rest of a poll that finds `second` in flight as the second
/// sub-computation, on `host`. The sub-computation is polled once. Where it
/// is not ready, the workflow keeps it as that poll left it, the host is
/// untouched, and the result is `NotReady`. Where it gives a text, the text
/// is emitted, the workflow is resolved and owns nothing, and the result is
/// `Ready`.
pub open spec fn second_polled<H: Host>(
    second: &H::Fetch,
    host: &H,
    outcome: PollState<()>,
    after: &Coroutine<H>,
) -> bool {
    exists|answer: PollState<String>, left: H::Fetch| #[trigger]
        answered(second, answer, &left) && match answer {
            PollState::NotReady => {
                &&& outcome is NotReady
                &&& after.stage() is WaitingOnSecond
                &&& after.in_flight() == Some(left)
                &&& after.host() == host
            },
            PollState::Ready(text) => {
                &&& outcome is Ready
                &&& after.stage() is Resolved
                &&& after.in_flight() is None
                &&& emitted(host, text@, after.host())
            },
        }
}

/// The rest of a poll once the first sub-computation has given `text`, on
/// `host`: the text is emitted, the second sub-computation is constructed,
/// and the same poll goes on to poll it.
pub open spec fn handed_on<H: Host>(
    host: &H,
    text: Seq<char>,
    outcome: PollState<()>,
    after: &Coroutine<H>,
) -> bool {
    exists|next: H, second: H::Fetch| #[trigger]
        handed_over(host, text, &next, &second) && second_polled(&second, &next, outcome, after)
}

/// The rest of a poll that finds `first` in flight as the first
/// sub-computation, on `host`. The sub-computation is polled once. Where it
/// is not ready, the workflow keeps it as that poll left it, the host is
/// untouched, and the result is `NotReady`. Where it gives a text, the poll
/// hands on to the second sub-computation.
pub open spec fn first_polled<H: Host>(
    first: &H::Fetch,
    host: &H,
    outcome: PollState<()>,
    after: &Coroutine<H>,
) -> bool {
    exists|answer: PollState<String>, left: H::Fetch| #[trigger]
        answered(first, answer, &left) && match answer {
            PollState::NotReady => {
                &&& outcome is NotReady
                &&& after.stage() is WaitingOnFirst
                &&& after.in_flight() == Some(left)
                &&& after.host() == host
            },
            PollState::Ready(text) => handed_on(host, text@, outcome, after),
        }
}

/// A poll that finds the workflow in `Start`, on `host`: it leaves `Start`
/// and goes on to poll the first sub-computation in the same call.
pub open spec fn started<H: Host>(host: &H, outcome: PollState<()>, after: &Coroutine<H>) -> bool {
    exists|next: H, first: H::Fetch| #[trigger]
        began(host, &next, &first) && first_polled(&first, &next, outcome, after)
}

/// The stage of a workflow together with the sub-computation that it owns
/// there. At most one is in flight at any time.
enum State<F> {
    Start,
    Wait1(F),
    Wait2(F),
    Resolved,
}

/// A workflow that fetches two resources in order and emits the text of
/// each as soon as it is there.
pub struct Coroutine<H: Host> {
    state: State<H::Fetch>,
    host: H,
}

impl<H: Host> Coroutine<H> {
    /// How far the workflow has come.
    pub closed spec fn stage(&self) -> Stage {
        match self.state {
            State::Start => Stage::Start,
            State::Wait1(_) => Stage::WaitingOnFirst,
            State::Wait2(_) => Stage::WaitingOnSecond,
            State::Resolved => Stage::Resolved,
        }
    }

    /// The sub-computation in flight: the one that the workflow owns while
    /// it waits, and none in `Start` and `Resolved`.
    pub closed spec fn in_flight(&self) -> Option<H::Fetch> {
        match self.state {
            State::Start => None,
            State::Wait1(first) => Some(first),
            State::Wait2(second) => Some(second),
            State::Resolved => None,
        }
    }

    /// The host of the workflow.
    pub closed spec fn spec_host(&self) -> &H {
        &self.host
    }

    /// The calls made on the workflow's host so far.
    pub open spec fn effects(&self) -> Trace {
        self.spec_host().effects()
    }

    /// How many more stages the workflow can leave.
    spec fn remaining(&self) -> nat {
        match self.state {
            State::Start => 3,
            State::Wait1(_) => 2,
            State::Wait2(_) => 1,
            State::Resolved => 0,
        }
    }

    /// What the current poll has asked of the host since it found the
    /// workflow in `before`, given that it has now come to `self.stage()`
    /// and that the first sub-computation answered `first` on the way.
    spec fn asked(&self, before: Stage, first: PollState<Seq<char>>) -> Trace {
        let head = if before is Start && !(self.stage() is Start) {
            opening()
        } else {
            Seq::empty()
        };
        let tail = if !(before is WaitingOnSecond) && self.stage() is WaitingOnSecond {
            handover(first->Ready_0)
        } else {
            Seq::empty()
        };
        head + tail
    }

    /// A finished workflow is resolved, and one in which no work has begun
    /// is not. A waiting workflow owns a sub-computation and is resolved
    /// exactly if that one is; the others own none.
    pub proof fn lemma_resolved_by_stage(&self)
        ensures
            self.stage() is Resolved ==> self.resolved(),
            self.stage() is Start ==> !self.resolved(),
            self.in_flight() is Some <==> self.stage() is WaitingOnFirst || self.stage()
                is WaitingOnSecond,
            self.in_flight() matches Some(fetch) ==> self.resolved() == fetch.resolved(),
    {
    }

    /// A workflow in which no work has begun. Nothing is asked of `host`
    /// before the first poll.
    pub fn new(host: H) -> (workflow: Self)
        ensures
            workflow.stage() is Start,
            workflow.in_flight() is None,
            *workflow.host() == host,
            !workflow.resolved(),
    {
        Coroutine { state: State::Start, host }
    }

    /// The host, for a look at what it holds between polls.
    #[verifier::when_used_as_spec(spec_host)]
    pub fn host(&self) -> (host: &H)
        ensures
            host == self.spec_host(),
    {
        &self.host
    }

    /// Leaves `Start`: emits the start marker and constructs the first
    /// sub-computation.
    fn begin(&mut self)
        requires
            old(self).stage() is Start,
        ensures
            final(self).stage() is WaitingOnFirst,
            final(self).in_flight() matches Some(first) && began(
                old(self).host(),
                final(self).host(),
                &first,
            ),
            final(self).effects() == old(self).effects() + opening(),
            !final(self).resolved(),
    {
        self.host.emit(START_MARKER);
        let ghost between = self.host;
        let first = self.host.get(FIRST_PATH);
        assert(emitted(old(self).host(), START_MARKER@, &between) && got(
            &between,
            FIRST_PATH@,
            &self.host,
            &first,
        ));
        self.state = State::Wait1(first);
        assert(self.effects() =~= old(self).effects() + opening());
    }

    /// Takes what the sub-computation in flight has answered and does the
    /// rest of the stage. The verdict is what the poll returns, or `None`
    /// where the poll goes on with the next stage.
    fn settle(&mut self, answer: PollState<String>) -> (verdict: Option<PollState<()>>)
        requires
            old(self).stage() is WaitingOnFirst || old(self).stage() is WaitingOnSecond,
        ensures
            answer is NotReady ==> {
                &&& *final(self) == *old(self)
                &&& verdict == Some(PollState::<()>::NotReady)
            },
            answer is Ready && old(self).stage() is WaitingOnFirst ==> {
                &&& final(self).stage() is WaitingOnSecond
                &&& final(self).in_flight() matches Some(second) && handed_over(
                    old(self).host(),
                    answer->Ready_0@,
                    final(self).host(),
                    &second,
                )
                &&& final(self).effects() == old(self).effects() + handover(answer->Ready_0@)
                &&& !final(self).resolved()
                &&& verdict is None
            },
            answer is Ready && old(self).stage() is WaitingOnSecond ==> {
                &&& final(self).stage() is Resolved
                &&& final(self).in_flight() is None
                &&& emitted(old(self).host(), answer->Ready_0@, final(self).host())
                &&& final(self).effects() == old(self).effects() + closing(answer->Ready_0@)
                &&& final(self).resolved()
                &&& verdict == Some(PollState::Ready(()))
            },
    {
        match answer {
            PollState::NotReady => Some(PollState::NotReady),
            PollState::Ready(text) => {
                self.host.emit(text.as_str());
                match self.state {
                    State::Wait1(_) => {
                        let ghost between = self.host;
                        let second = self.host.get(SECOND_PATH);
                        assert(emitted(old(self).host(), text@, &between) && got(
                            &between,
                            SECOND_PATH@,
                            &self.host,
                            &second,
                        ));
                        self.state = State::Wait2(second);
                        assert(self.effects() =~= old(self).effects() + handover(text@));
                        None
                    },
                    _ => {
                        self.state = State::Resolved;
                        assert(self.effects() =~= old(self).effects() + closing(text@));
                        Some(PollState::Ready(()))
                    },
                }
            },
        }
    }
}

impl<H: Host> Future for Coroutine<H> {
    type Output = ();

    /// The workflow has finished. (A workflow that holds a sub-computation
    /// which has already given its value counts as resolved too, since it
    /// cannot be polled; `new` and `poll` never leave one behind.)
    closed spec fn resolved(&self) -> bool {
        match self.state {
            State::Start => false,
            State::Wait1(first) => first.resolved(),
            State::Wait2(second) => second.resolved(),
            State::Resolved => true,
        }
    }

    /// What one poll does, stage by stage. Every answer in it is the one
    /// that the sub-computation in flight gave to its one poll, and every
    /// fetch polled after its construction is the one that the host gave.
    open spec fn polls_to(&self, outcome: PollState<()>, after: &Self) -> bool {
        match self.stage() {
            Stage::Start => started(self.host(), outcome, after),
            Stage::WaitingOnFirst => self.in_flight() matches Some(first) && first_polled(
                &first,
                self.host(),
                outcome,
                after,
            ),
            Stage::WaitingOnSecond => self.in_flight() matches Some(second) && second_polled(
                &second,
                self.host(),
                outcome,
                after,
            ),
            Stage::Resolved => false,
        }
    }

    /// Runs the workflow until a sub-computation is not ready, or until the
    /// second one has given its text. What the call does is `polls_to`,
    /// exactly; seen from outside, it is the turn for the answers that the
    /// sub-computations gave.
    fn poll(&mut self) -> (outcome: PollState<()>)
        ensures
            old(self).polls_to(outcome, final(self)),
            polled(
                old(self).stage(),
                old(self).effects(),
                final(self).stage(),
                final(self).effects(),
                outcome,
            ),
            (outcome is Ready) == (final(self).stage() is Resolved),
    {
        let ghost before = old(self).stage();
        let ghost mut first: PollState<Seq<char>> = PollState::NotReady;
        loop
            invariant
                !self.resolved(),
                before == old(self).stage(),
                self.remaining() <= old(self).remaining(),
                self.effects() == old(self).effects() + self.asked(before, first),
                !(before is WaitingOnSecond) && self.stage() is WaitingOnSecond ==> first is Ready,
                self.stage() is Start || self.stage() is WaitingOnFirst ==> first is NotReady,
                forall|outcome: PollState<()>, after: Self| #[trigger]
                    self.polls_to(outcome, &after) ==> old(self).polls_to(outcome, &after),
            decreases self.remaining(),
        {
            let ghost found = *self;
            let answer = match self.state {
                State::Start => {
                    self.begin();
                    assert forall|outcome: PollState<()>, after: Self| #[trigger]
                        self.polls_to(outcome, &after) implies old(self).polls_to(
                        outcome,
                        &after,
                    ) by {
                        assert(found.polls_to(outcome, &after));
                    }
                    continue;
                },
                State::Wait1(ref mut fetch) => fetch.poll(),
                State::Wait2(ref mut fetch) => fetch.poll(),
                State::Resolved => unreached(),
            };
            let ghost waiting = self.stage();
            let ghost given = answer;
            let ghost left = self.in_flight()->Some_0;
            assert(answered(&found.in_flight()->Some_0, given, &left));
            let verdict = self.settle(answer);
            proof {
                if waiting is WaitingOnFirst {
                    first = text_of(given);
                }
            }
            match verdict {
                Some(outcome) => {
                    proof {
                        let second = if waiting is WaitingOnSecond {
                            text_of(given)
                        } else {
                            PollState::NotReady
                        };
                        let t = turn(before, first, second);
                        assert(self.effects() =~= old(self).effects() + t.effects);
                        assert(found.polls_to(outcome, &*self));
                    }
                    return outcome;
                },
                None => {
                    assert forall|outcome: PollState<()>, after: Self| #[trigger]
                        self.polls_to(outcome, &after) implies old(self).polls_to(
                        outcome,
                        &after,
                    ) by {
                        assert(handed_on(found.host(), given->Ready_0@, outcome, &after));
                        assert(found.polls_to(outcome, &after));
                    }
                },
            }
        }
    }
}

/// The workflow as a computation to be driven: a workflow on `host` in which
/// no work has begun.
pub fn async_main<H: Host>(host: H) -> (workflow: Coroutine<H>)
    ensures
        workflow.stage() is Start,
        workflow.in_flight() is None,
        *workflow.host() == host,
        !workflow.resolved(),
{
    Coroutine::new(host)
}

} // verus!
