//! Sequences of polls on a fresh workflow, and what holds of every one of
//! them.

use vstd::prelude::*;
use crate::future::answered;
use crate::future::Future;
use crate::future::PollState;
use crate::host::emitted;
use crate::host::got;
use crate::host::Effect;
use crate::host::Host;
use crate::host::Trace;
use crate::scripted::Delayed;
use crate::workflow::began;
use crate::workflow::closing;
use crate::workflow::first_polled;
use crate::workflow::handed_on;
use crate::workflow::handed_over;
use crate::workflow::second_polled;
use crate::workflow::started;
use crate::workflow::handover;
use crate::workflow::opening;
use crate::workflow::polled;
use crate::workflow::turn;
use crate::workflow::Coroutine;
use crate::scripted::Scripted;
use crate::workflow::Stage;
use crate::workflow::FIRST_PATH;
use crate::workflow::START_MARKER;
use crate::workflow::SECOND_PATH;

verus! {

/// What the sub-computations answer during one poll of the workflow. An
/// answer of a sub-computation that the poll does not reach plays no part.
pub struct Answers {
    pub first: PollState<Seq<char>>,
    pub second: PollState<Seq<char>>,
}

/// The stage of a workflow that was fresh and has been polled once for each
/// entry of `answers`.
pub open spec fn stage_after(answers: Seq<Answers>) -> Stage
    decreases answers.len(),
{
    if answers.len() == 0 {
        Stage::Start
    } else {
        let last = answers.last();
        turn(stage_after(answers.drop_last()), last.first, last.second).stage
    }
}

/// What those polls have asked of the host, in order.
pub open spec fn trace_after(answers: Seq<Answers>) -> Trace
    decreases answers.len(),
{
    if answers.len() == 0 {
        Seq::empty()
    } else {
        let last = answers.last();
        trace_after(answers.drop_last()) + turn(
            stage_after(answers.drop_last()),
            last.first,
            last.second,
        ).effects
    }
}

/// What the poll with index `i` returned.
pub open spec fn outcome_at(answers: Seq<Answers>, i: int) -> PollState<()>
    recommends
        0 <= i < answers.len(),
{
    turn(stage_after(answers.take(i)), answers[i].first, answers[i].second).outcome
}

/// Whether every poll of the sequence was allowed: none was made on a
/// workflow that had resolved.
pub open spec fn admissible(answers: Seq<Answers>) -> bool {
    forall|i: int| 0 <= i < answers.len() ==> !(#[trigger] stage_after(answers.take(i)) is Resolved)
}

/// Everything a workflow in `stage` has asked of its host since it was
/// fresh, where the sub-computations gave `first_text` and `second_text`.
pub open spec fn script(stage: Stage, first_text: Seq<char>, second_text: Seq<char>) -> Trace {
    match stage {
        Stage::Start => Seq::empty(),
        Stage::WaitingOnFirst => opening(),
        Stage::WaitingOnSecond => opening() + handover(first_text),
        Stage::Resolved => opening() + handover(first_text) + closing(second_text),
    }
}

/// One poll returns `Ready` exactly when the second sub-computation gives
/// its text during that poll, the first having given its own before or in
/// the same poll. This is also exactly when the poll leaves the workflow
/// resolved. In every other case the poll returns `NotReady`.
pub proof fn lemma_ready_iff_both_resolved(
    stage: Stage,
    first: PollState<Seq<char>>,
    second: PollState<Seq<char>>,
)
    requires
        !(stage is Resolved),
    ensures
        turn(stage, first, second).outcome is Ready <==> second is Ready && (stage
            is WaitingOnSecond || first is Ready),
        turn(stage, first, second).outcome is Ready <==> turn(stage, first, second).stage
            is Resolved,
{
}

/// The poll during which the first sub-computation gives its text, while
/// the second is not ready yet, still returns `NotReady`. It leaves the
/// workflow waiting on the second sub-computation, which it has constructed
/// after emitting the text.
pub proof fn lemma_first_alone_suspends(stage: Stage, text: Seq<char>)
    requires
        stage is Start || stage is WaitingOnFirst,
    ensures
        ({
            let t = turn(stage, PollState::Ready(text), PollState::NotReady);
            &&& t.outcome is NotReady
            &&& t.stage is WaitingOnSecond
            &&& handover(text).is_suffix_of(t.effects)
        }),
{
    let t = turn(stage, PollState::Ready(text), PollState::NotReady);
    if stage is Start {
        assert(t.effects == opening() + (handover(text) + Seq::<Effect>::empty()));
        assert(t.effects.skip(2) =~= handover(text));
    } else {
        assert(t.effects.skip(0) =~= handover(text));
    }
}

/// A poll never moves a workflow backwards, and a poll that finds it in
/// `Start` moves it on.
pub proof fn lemma_turn_advances(
    stage: Stage,
    first: PollState<Seq<char>>,
    second: PollState<Seq<char>>,
)
    ensures
        ({
            let after = turn(stage, first, second).stage;
            &&& !(after is Start)
            &&& stage is WaitingOnSecond ==> after is WaitingOnSecond || after is Resolved
            &&& stage is Resolved ==> after is Resolved
        }),
{
}

/// A poll of a workflow that has the history `answers` behind it lengthens
/// that history by one entry: what the poll did to stage and trace, and what
/// it returned, is what the longer history says. `base` is what the host had
/// been asked before the workflow was made.
pub proof fn lemma_poll_extends_history(
    answers: Seq<Answers>,
    base: Trace,
    after: Stage,
    trace: Trace,
    outcome: PollState<()>,
) -> (next: Answers)
    requires
        polled(stage_after(answers), base + trace_after(answers), after, trace, outcome),
    ensures
        after == stage_after(answers.push(next)),
        trace == base + trace_after(answers.push(next)),
        outcome == outcome_at(answers.push(next), answers.len() as int),
        !(stage_after(answers) is Resolved) && admissible(answers) ==> admissible(
            answers.push(next),
        ),
{
    let before = stage_after(answers);
    let (first, second) = choose|first: PollState<Seq<char>>, second: PollState<Seq<char>>|
        {
            let t = #[trigger] turn(before, first, second);
            &&& after == t.stage
            &&& trace == base + trace_after(answers) + t.effects
            &&& outcome == t.outcome
        };
    let next = Answers { first, second };
    let longer = answers.push(next);
    assert(longer.drop_last() =~= answers);
    assert(longer.take(answers.len() as int) =~= answers);
    assert(trace =~= base + trace_after(longer));
    if !(before is Resolved) && admissible(answers) {
        assert forall|i: int| 0 <= i < longer.len() implies !(#[trigger] stage_after(
            longer.take(i),
        ) is Resolved) by {
            if i < answers.len() {
                assert(longer.take(i) =~= answers.take(i));
            }
        }
    }
    next
}

/// While the sequence is admissible, each prefix of it is.
proof fn lemma_prefix_admissible(answers: Seq<Answers>, n: int)
    requires
        admissible(answers),
        0 <= n <= answers.len(),
    ensures
        admissible(answers.take(n)),
{
    assert forall|i: int| 0 <= i < n implies !(#[trigger] stage_after(answers.take(n).take(i))
        is Resolved) by {
        assert(answers.take(n).take(i) =~= answers.take(i));
    }
}

/// The stage after the first `i + 1` polls is the one in which the poll
/// with index `i` left the workflow.
proof fn lemma_stage_unfolds(answers: Seq<Answers>, i: int)
    requires
        0 <= i < answers.len(),
    ensures
        stage_after(answers.take(i + 1)) == turn(
            stage_after(answers.take(i)),
            answers[i].first,
            answers[i].second,
        ).stage,
        trace_after(answers.take(i + 1)) == trace_after(answers.take(i)) + turn(
            stage_after(answers.take(i)),
            answers[i].first,
            answers[i].second,
        ).effects,
{
    let upto = answers.take(i + 1);
    assert(upto.drop_last() =~= answers.take(i));
    assert(upto.last() == answers[i]);
}

/// For every admissible sequence of polls on a fresh workflow: a poll
/// returns `Ready` exactly when it leaves the workflow resolved, and that
/// poll is the last of the sequence. Every poll before it returns
/// `NotReady`.
pub proof fn lemma_not_ready_until_resolved(answers: Seq<Answers>, i: int)
    requires
        admissible(answers),
        0 <= i < answers.len(),
    ensures
        outcome_at(answers, i) is Ready <==> stage_after(answers.take(i + 1)) is Resolved,
        outcome_at(answers, i) is Ready ==> i == answers.len() - 1,
        i < answers.len() - 1 ==> outcome_at(answers, i) is NotReady,
{
    lemma_stage_unfolds(answers, i);
    lemma_ready_iff_both_resolved(
        stage_after(answers.take(i)),
        answers[i].first,
        answers[i].second,
    );
    if i < answers.len() - 1 {
        assert(!(stage_after(answers.take(i + 1)) is Resolved));
    }
}

/// After every admissible sequence of polls on a fresh workflow, the host
/// has been asked exactly what the script of the stage lists, for the texts
/// that the sub-computations gave.
pub proof fn lemma_trace_follows_script(answers: Seq<Answers>) -> (texts: (Seq<char>, Seq<char>))
    requires
        admissible(answers),
    ensures
        trace_after(answers) == script(stage_after(answers), texts.0, texts.1),
    decreases answers.len(),
{
    if answers.len() == 0 {
        (Seq::empty(), Seq::empty())
    } else {
        let n = answers.len() - 1;
        let earlier = answers.drop_last();
        let last = answers.last();
        assert(earlier =~= answers.take(n));
        lemma_prefix_admissible(answers, n);
        let known = lemma_trace_follows_script(earlier);
        let before = stage_after(earlier);
        assert(!(before is Resolved));
        let t = turn(before, last.first, last.second);
        let first_text = if before is WaitingOnSecond {
            known.0
        } else {
            last.first->Ready_0
        };
        let second_text = last.second->Ready_0;
        assert(trace_after(answers) =~= script(t.stage, first_text, second_text));
        (first_text, second_text)
    }
}

/// The two fetches are told apart by their resources.
pub proof fn lemma_paths_differ()
    ensures
        FIRST_PATH@ != SECOND_PATH@,
{
    reveal_strlit("/600/HelloWorld1");
    reveal_strlit("/400/HelloWorld2");
    assert(FIRST_PATH@[1] == '6');
    assert(SECOND_PATH@[1] == '4');
}

/// After every admissible sequence of polls on a fresh workflow: where the
/// trace holds the construction of the second sub-computation, the entry
/// just before it is the emission of a text, and that entry follows the
/// construction of the first sub-computation. So the first text is always
/// emitted strictly before the second sub-computation is constructed.
pub proof fn lemma_first_text_before_second_fetch(answers: Seq<Answers>, k: int)
    requires
        admissible(answers),
        0 <= k < trace_after(answers).len(),
        trace_after(answers)[k] == Effect::Requested(SECOND_PATH@),
    ensures
        k == 3,
        trace_after(answers)[k - 1] is Emitted,
        trace_after(answers)[k - 2] == Effect::Requested(FIRST_PATH@),
        stage_after(answers) is WaitingOnSecond || stage_after(answers) is Resolved,
{
    lemma_trace_follows_script(answers);
    lemma_paths_differ();
}

/// While the second sub-computation never gives a text, no poll returns
/// `Ready`, however many are made, and the second text is never emitted:
/// the trace ends with the construction of the second sub-computation at
/// the latest, and holds no emission but the start marker and the first
/// text.
pub proof fn lemma_pending_while_second_pending(answers: Seq<Answers>, i: int)
    requires
        forall|j: int| 0 <= j < answers.len() ==> (#[trigger] answers[j]).second is NotReady,
        0 <= i < answers.len(),
    ensures
        admissible(answers),
        outcome_at(answers, i) is NotReady,
        !(stage_after(answers) is Resolved),
        trace_after(answers).len() <= 4,
        forall|k: int|
            0 <= k < trace_after(answers).len() && (#[trigger] trace_after(answers)[k])
                is Emitted ==> k == 0 || k == 2,
{
    lemma_never_resolved(answers.take(i));
    lemma_never_resolved(answers);
    assert forall|j: int| 0 <= j < answers.len() implies !(#[trigger] stage_after(
        answers.take(j),
    ) is Resolved) by {
        lemma_never_resolved(answers.take(j));
    }
    lemma_trace_follows_script(answers);
}

/// Without a text from the second sub-computation no sequence of polls
/// resolves the workflow.
proof fn lemma_never_resolved(answers: Seq<Answers>)
    requires
        forall|j: int| 0 <= j < answers.len() ==> (#[trigger] answers[j]).second is NotReady,
    ensures
        !(stage_after(answers) is Resolved),
    decreases answers.len(),
{
    if answers.len() > 0 {
        lemma_never_resolved(answers.drop_last());
    }
}

/// What the polls of a workflow see where the first sub-computation answers
/// `NotReady` to `first_delay` polls and then gives `first_text`, and the
/// second answers `NotReady` to `second_delay` polls and then gives
/// `second_text`: the sequence up to the poll that sees the second text.
pub open spec fn delayed_answers(
    first_delay: nat,
    first_text: Seq<char>,
    second_delay: nat,
    second_text: Seq<char>,
) -> Seq<Answers> {
    Seq::new(
        first_delay + second_delay + 1,
        |i: int|
            Answers {
                first: if i < first_delay {
                    PollState::NotReady
                } else {
                    PollState::Ready(first_text)
                },
                second: if i < first_delay + second_delay {
                    PollState::NotReady
                } else {
                    PollState::Ready(second_text)
                },
            },
    )
}

/// The stage in which such a workflow is after `polls` polls.
pub open spec fn delayed_stage(first_delay: nat, second_delay: nat, polls: nat) -> Stage {
    if polls == 0 {
        Stage::Start
    } else if polls <= first_delay {
        Stage::WaitingOnFirst
    } else if polls <= first_delay + second_delay {
        Stage::WaitingOnSecond
    } else {
        Stage::Resolved
    }
}

/// The stages that such a workflow goes through.
proof fn lemma_delayed_stages(
    first_delay: nat,
    first_text: Seq<char>,
    second_delay: nat,
    second_text: Seq<char>,
    polls: nat,
)
    requires
        polls <= first_delay + second_delay + 1,
    ensures
        stage_after(
            delayed_answers(first_delay, first_text, second_delay, second_text).take(polls as int),
        ) == delayed_stage(first_delay, second_delay, polls),
    decreases polls,
{
    let answers = delayed_answers(first_delay, first_text, second_delay, second_text);
    if polls > 0 {
        lemma_delayed_stages(
            first_delay,
            first_text,
            second_delay,
            second_text,
            (polls - 1) as nat,
        );
        lemma_stage_unfolds(answers, polls - 1);
    }
}

/// The delays add up. Where the first sub-computation is pending for
/// `first_delay` polls and the second for `second_delay`, the workflow
/// returns `NotReady` to exactly `first_delay + second_delay` polls and
/// `Ready` to the next one. By then it has asked its host for the whole
/// script, the first text before the second fetch.
pub proof fn lemma_delays_add_up(
    first_delay: nat,
    first_text: Seq<char>,
    second_delay: nat,
    second_text: Seq<char>,
)
    ensures
        ({
            let answers = delayed_answers(first_delay, first_text, second_delay, second_text);
            &&& admissible(answers)
            &&& forall|i: int|
                0 <= i < first_delay + second_delay ==> #[trigger] outcome_at(answers, i)
                    is NotReady
            &&& outcome_at(answers, (first_delay + second_delay) as int) is Ready
            &&& stage_after(answers) is Resolved
            &&& trace_after(answers) == script(Stage::Resolved, first_text, second_text)
        }),
{
    let answers = delayed_answers(first_delay, first_text, second_delay, second_text);
    let last = (first_delay + second_delay) as int;
    assert forall|i: int| 0 <= i <= last + 1 implies #[trigger] stage_after(answers.take(i))
        == delayed_stage(first_delay, second_delay, i as nat) by {
        lemma_delayed_stages(first_delay, first_text, second_delay, second_text, i as nat);
    }
    assert(answers.take(last + 1) =~= answers);
    assert(admissible(answers));
    assert forall|i: int| 0 <= i <= last implies (#[trigger] outcome_at(answers, i) is Ready <==> i
        == last) by {
        lemma_not_ready_until_resolved(answers, i);
    }
    lemma_trace_holds_given_texts(answers, first_text, second_text);
}

/// Where every text that the first sub-computation answers with is
/// `first_text`, and every text of the second is `second_text`, the trace is
/// the script for these two texts.
proof fn lemma_trace_holds_given_texts(
    answers: Seq<Answers>,
    first_text: Seq<char>,
    second_text: Seq<char>,
)
    requires
        admissible(answers),
        forall|i: int|
            0 <= i < answers.len() ==> {
                &&& (#[trigger] answers[i]).first is Ready ==> answers[i].first->Ready_0
                    == first_text
                &&& answers[i].second is Ready ==> answers[i].second->Ready_0 == second_text
            },
    ensures
        trace_after(answers) == script(stage_after(answers), first_text, second_text),
    decreases answers.len(),
{
    if answers.len() > 0 {
        let n = answers.len() - 1;
        let earlier = answers.drop_last();
        assert(earlier =~= answers.take(n));
        lemma_prefix_admissible(answers, n);
        lemma_trace_holds_given_texts(earlier, first_text, second_text);
        assert(!(stage_after(earlier) is Resolved));
        let t = turn(stage_after(earlier), answers.last().first, answers.last().second);
        assert(trace_after(answers) =~= script(t.stage, first_text, second_text));
    }
}

/// The stage of a workflow after `polls` polls, where the first
/// sub-computation is pending for `first_delay` polls and the second for
/// `second_delay`, or for ever where that is `None`.
pub open spec fn scripted_stage(first_delay: nat, second_delay: Option<nat>, polls: nat) -> Stage {
    if polls == 0 {
        Stage::Start
    } else if polls <= first_delay {
        Stage::WaitingOnFirst
    } else if second_delay matches Some(delay) && polls > first_delay + delay {
        Stage::Resolved
    } else {
        Stage::WaitingOnSecond
    }
}

/// Whether the script of `host` is two fetches with these delays and texts.
pub open spec fn holds_script(
    host: &Scripted,
    first_delay: nat,
    first_text: Seq<char>,
    second_delay: Option<nat>,
    second_text: Seq<char>,
) -> bool {
    let plans = host.script();
    &&& plans.len() == 2
    &&& plans[0].delay() == Some(first_delay)
    &&& plans[0].text@ == first_text
    &&& plans[1].delay() == second_delay
    &&& plans[1].text@ == second_text
}

/// A workflow on a scripted host, `polls` polls after it was made. The
/// script is two fetches: the first is pending for `first_delay` polls and
/// gives `first_text`, the second is pending for `second_delay` polls, or
/// for ever, and gives `second_text`. The workflow is in the stage that
/// these delays give, it owns the fetch of that stage with what is left of
/// its delay, and it has asked the host for the script of that stage, after
/// what the host had been asked before, `base`.
pub open spec fn rehearsed(
    workflow: &Coroutine<Scripted>,
    base: Trace,
    first_delay: nat,
    first_text: Seq<char>,
    second_delay: Option<nat>,
    second_text: Seq<char>,
    polls: nat,
) -> bool {
    let stage = scripted_stage(first_delay, second_delay, polls);
    &&& holds_script(workflow.host(), first_delay, first_text, second_delay, second_text)
    &&& workflow.stage() == stage
    &&& workflow.effects() == base + script(stage, first_text, second_text)
    &&& match stage {
        Stage::Start => workflow.host().handed_out() == 0,
        Stage::WaitingOnFirst => {
            &&& workflow.host().handed_out() == 1
            &&& workflow.in_flight() matches Some(first)
            &&& !first.resolved()
            &&& first.pending() == Some((first_delay - polls) as nat)
            &&& first.text() == first_text
        },
        Stage::WaitingOnSecond => {
            &&& workflow.host().handed_out() == 2
            &&& workflow.in_flight() matches Some(second)
            &&& !second.resolved()
            &&& second.text() == second_text
            &&& second.pending() == match second_delay {
                Some(delay) => Some((first_delay + delay - polls) as nat),
                None => None,
            }
        },
        Stage::Resolved => workflow.host().handed_out() == 2,
    }
}

/// A poll of a rehearsed workflow is decided by the script. It leaves the
/// workflow rehearsed with one poll more, and it returns `Ready` exactly
/// where it is the poll that follows both delays. So on the scripted host
/// every poll of a workflow does what the sequence of answers for these
/// delays says.
pub proof fn lemma_rehearsed_poll(
    workflow: &Coroutine<Scripted>,
    outcome: PollState<()>,
    after: &Coroutine<Scripted>,
    base: Trace,
    first_delay: nat,
    first_text: Seq<char>,
    second_delay: Option<nat>,
    second_text: Seq<char>,
    polls: nat,
)
    requires
        rehearsed(workflow, base, first_delay, first_text, second_delay, second_text, polls),
        !(workflow.stage() is Resolved),
        workflow.polls_to(outcome, after),
    ensures
        rehearsed(after, base, first_delay, first_text, second_delay, second_text, polls + 1),
        outcome is Ready <==> second_delay == Some((polls - first_delay) as nat) && polls
            >= first_delay,
        outcome is Ready <==> after.stage() is Resolved,
{
    workflow.lemma_resolved_by_stage();
    let host = workflow.host();
    match workflow.stage() {
        Stage::Start => {
            let (next, first) = choose|next: Scripted, first: Delayed| #[trigger]
                began(host, &next, &first) && first_polled(&first, &next, outcome, after);
            let between = choose|between: Scripted| #[trigger]
                emitted(host, START_MARKER@, &between) && got(
                    &between,
                    FIRST_PATH@,
                    &next,
                    &first,
                );
            assert(next.effects() =~= base + script(
                Stage::WaitingOnFirst,
                first_text,
                second_text,
            ));
            lemma_rehearsed_first(
                &first,
                &next,
                outcome,
                after,
                base,
                first_delay,
                first_text,
                second_delay,
                second_text,
                polls,
            );
        },
        Stage::WaitingOnFirst => {
            lemma_rehearsed_first(
                &workflow.in_flight()->Some_0,
                host,
                outcome,
                after,
                base,
                first_delay,
                first_text,
                second_delay,
                second_text,
                polls,
            );
        },
        Stage::WaitingOnSecond => {
            lemma_rehearsed_second(
                &workflow.in_flight()->Some_0,
                host,
                outcome,
                after,
                base,
                first_delay,
                first_text,
                second_delay,
                second_text,
                polls,
            );
        },
        Stage::Resolved => {},
    }
}

/// The rest of a rehearsed poll from the first fetch on.
proof fn lemma_rehearsed_first(
    first: &Delayed,
    host: &Scripted,
    outcome: PollState<()>,
    after: &Coroutine<Scripted>,
    base: Trace,
    first_delay: nat,
    first_text: Seq<char>,
    second_delay: Option<nat>,
    second_text: Seq<char>,
    polls: nat,
)
    requires
        first_polled(first, host, outcome, after),
        holds_script(host, first_delay, first_text, second_delay, second_text),
        host.handed_out() == 1,
        host.effects() == base + script(Stage::WaitingOnFirst, first_text, second_text),
        polls <= first_delay,
        !first.resolved(),
        first.pending() == Some((first_delay - polls) as nat),
        first.text() == first_text,
    ensures
        rehearsed(after, base, first_delay, first_text, second_delay, second_text, polls + 1),
        outcome is Ready <==> second_delay == Some((polls - first_delay) as nat) && polls
            >= first_delay,
        outcome is Ready <==> after.stage() is Resolved,
{
    after.lemma_resolved_by_stage();
    let (answer, left) = choose|answer: PollState<String>, left: Delayed| #[trigger]
        answered(first, answer, &left) && match answer {
            PollState::NotReady => {
                &&& outcome is NotReady
                &&& after.stage() is WaitingOnFirst
                &&& after.in_flight() == Some(left)
                &&& after.host() == host
            },
            PollState::Ready(text) => handed_on(host, text@, outcome, after),
        };
    match answer {
        PollState::NotReady => {},
        PollState::Ready(text) => {
            let (next, second) = choose|next: Scripted, second: Delayed| #[trigger]
                handed_over(host, text@, &next, &second) && second_polled(
                    &second,
                    &next,
                    outcome,
                    after,
                );
            let between = choose|between: Scripted| #[trigger]
                emitted(host, text@, &between) && got(&between, SECOND_PATH@, &next, &second);
            assert(next.effects() =~= base + script(
                Stage::WaitingOnSecond,
                first_text,
                second_text,
            ));
            lemma_rehearsed_second(
                &second,
                &next,
                outcome,
                after,
                base,
                first_delay,
                first_text,
                second_delay,
                second_text,
                polls,
            );
        },
    }
}

/// The rest of a rehearsed poll from the second fetch on.
proof fn lemma_rehearsed_second(
    second: &Delayed,
    host: &Scripted,
    outcome: PollState<()>,
    after: &Coroutine<Scripted>,
    base: Trace,
    first_delay: nat,
    first_text: Seq<char>,
    second_delay: Option<nat>,
    second_text: Seq<char>,
    polls: nat,
)
    requires
        second_polled(second, host, outcome, after),
        holds_script(host, first_delay, first_text, second_delay, second_text),
        host.handed_out() == 2,
        host.effects() == base + script(Stage::WaitingOnSecond, first_text, second_text),
        polls >= first_delay,
        second_delay matches Some(delay) ==> polls <= first_delay + delay,
        !second.resolved(),
        second.text() == second_text,
        second.pending() == match second_delay {
            Some(delay) => Some((first_delay + delay - polls) as nat),
            None => None,
        },
    ensures
        rehearsed(after, base, first_delay, first_text, second_delay, second_text, polls + 1),
        outcome is Ready <==> second_delay == Some((polls - first_delay) as nat) && polls
            >= first_delay,
        outcome is Ready <==> after.stage() is Resolved,
{
    after.lemma_resolved_by_stage();
    let (answer, left) = choose|answer: PollState<String>, left: Delayed| #[trigger]
        answered(second, answer, &left) && match answer {
            PollState::NotReady => {
                &&& outcome is NotReady
                &&& after.stage() is WaitingOnSecond
                &&& after.in_flight() == Some(left)
                &&& after.host() == host
            },
            PollState::Ready(text) => {
                &&& outcome is Ready
                &&& after.stage() is Resolved
                &&& after.in_flight() is None
                &&& emitted(host, text@, after.host())
            },
        };
    match answer {
        PollState::NotReady => {},
        PollState::Ready(text) => {
            assert(after.effects() =~= base + script(Stage::Resolved, first_text, second_text));
        },
    }
}

/// The rehearsal is the history: where both delays are finite, a rehearsed
/// workflow is in the stage, and has asked its host for the trace, that the
/// sequence of answers for these delays gives after as many polls, and its
/// next poll returns what that sequence says.
pub proof fn lemma_rehearsal_follows_answers(
    workflow: &Coroutine<Scripted>,
    base: Trace,
    first_delay: nat,
    first_text: Seq<char>,
    second_delay: nat,
    second_text: Seq<char>,
    polls: nat,
)
    requires
        rehearsed(
            workflow,
            base,
            first_delay,
            first_text,
            Some(second_delay),
            second_text,
            polls,
        ),
        polls <= first_delay + second_delay + 1,
    ensures
        ({
            let answers = delayed_answers(first_delay, first_text, second_delay, second_text);
            &&& workflow.stage() == stage_after(answers.take(polls as int))
            &&& workflow.effects() == base + trace_after(answers.take(polls as int))
            &&& forall|outcome: PollState<()>, after: Coroutine<Scripted>|
                polls <= first_delay + second_delay && #[trigger] workflow.polls_to(
                    outcome,
                    &after,
                ) ==> outcome == outcome_at(answers, polls as int)
        }),
{
    let answers = delayed_answers(first_delay, first_text, second_delay, second_text);
    let upto = answers.take(polls as int);
    lemma_delayed_stages(first_delay, first_text, second_delay, second_text, polls);
    lemma_delays_add_up(first_delay, first_text, second_delay, second_text);
    lemma_prefix_admissible(answers, polls as int);
    lemma_trace_holds_given_texts(upto, first_text, second_text);
    assert forall|outcome: PollState<()>, after: Coroutine<Scripted>|
        polls <= first_delay + second_delay && #[trigger] workflow.polls_to(
            outcome,
            &after,
        ) implies outcome == outcome_at(answers, polls as int) by {
        lemma_rehearsed_poll(
            workflow,
            outcome,
            &after,
            base,
            first_delay,
            first_text,
            Some(second_delay),
            second_text,
            polls,
        );
        lemma_not_ready_until_resolved(answers, polls as int);
        if outcome is Ready {
            assert(outcome->Ready_0 == outcome_at(answers, polls as int)->Ready_0);
        }
    }
}

} // verus!
