use coroutine::{after_poll, async_main, Coroutine, Directive, Entry, Future, Host, Plan};
use coroutine::{PollState, Scripted, FIRST_PATH, SECOND_PATH, START_MARKER};

fn plan(pending: Option<u64>, text: &str) -> Plan {
    Plan { pending, text: text.to_string() }
}

fn workflow_on(first: Plan, second: Plan) -> Coroutine<Scripted> {
    async_main(Scripted::new(vec![first, second]))
}

fn emitted(text: &str) -> Entry {
    Entry::Emitted(text.to_string())
}

fn requested(path: &str) -> Entry {
    Entry::Requested(path.to_string())
}

fn is_ready(outcome: &PollState<()>) -> bool {
    matches!(outcome, PollState::Ready(()))
}

#[test]
fn constants_are_the_documented_texts() {
    assert_eq!(START_MARKER, "Program starting");
    assert_eq!(FIRST_PATH, "/600/HelloWorld1");
    assert_eq!(SECOND_PATH, "/400/HelloWorld2");
}

#[test]
fn a_fresh_workflow_asks_nothing_of_its_host() {
    let by_new = Coroutine::new(Scripted::new(vec![plan(Some(0), "a"), plan(Some(0), "b")]));
    assert_eq!(by_new.host().record(), &vec![]);
    let by_main = workflow_on(plan(Some(0), "a"), plan(Some(0), "b"));
    assert_eq!(by_main.host().record(), &vec![]);
}

#[test]
fn three_then_two_pending_polls_resolve_on_the_sixth() {
    let mut workflow = workflow_on(plan(Some(3), "HelloWorld1"), plan(Some(2), "HelloWorld2"));
    let opening = vec![emitted("Program starting"), requested("/600/HelloWorld1")];
    let handover = vec![
        emitted("Program starting"),
        requested("/600/HelloWorld1"),
        emitted("HelloWorld1"),
        requested("/400/HelloWorld2"),
    ];
    let whole = vec![
        emitted("Program starting"),
        requested("/600/HelloWorld1"),
        emitted("HelloWorld1"),
        requested("/400/HelloWorld2"),
        emitted("HelloWorld2"),
    ];
    // Three polls find the first fetch pending.
    for _ in 0..3 {
        assert!(!is_ready(&workflow.poll()));
        assert_eq!(workflow.host().record(), &opening);
    }
    // The fourth sees the first text and goes on to the second fetch, which
    // is pending for two polls.
    for _ in 0..2 {
        assert!(!is_ready(&workflow.poll()));
        assert_eq!(workflow.host().record(), &handover);
    }
    // The sixth sees the second text.
    assert!(is_ready(&workflow.poll()));
    assert_eq!(workflow.host().record(), &whole);
}

#[test]
fn both_ready_at_once_resolve_in_a_single_poll() {
    let mut workflow = workflow_on(plan(Some(0), "HelloWorld1"), plan(Some(0), "HelloWorld2"));
    assert!(is_ready(&workflow.poll()));
    assert_eq!(
        workflow.host().record(),
        &vec![
            emitted("Program starting"),
            requested("/600/HelloWorld1"),
            emitted("HelloWorld1"),
            requested("/400/HelloWorld2"),
            emitted("HelloWorld2"),
        ]
    );
}

#[test]
fn a_second_fetch_that_never_resolves_keeps_the_loop_idling() {
    let mut workflow = workflow_on(plan(Some(1), "HelloWorld1"), plan(None, "HelloWorld2"));
    for _ in 0..1000 {
        let outcome = workflow.poll();
        assert!(!is_ready(&outcome));
        assert_eq!(after_poll(&outcome), Directive::Idle);
    }
    assert_eq!(
        workflow.host().record(),
        &vec![
            emitted("Program starting"),
            requested("/600/HelloWorld1"),
            emitted("HelloWorld1"),
            requested("/400/HelloWorld2"),
        ]
    );
}

#[test]
fn the_second_fetch_is_not_constructed_while_the_first_is_pending() {
    let mut workflow = workflow_on(plan(None, "one"), plan(Some(0), "two"));
    for _ in 0..50 {
        assert!(!is_ready(&workflow.poll()));
    }
    assert_eq!(workflow.host().record(), &vec![emitted(START_MARKER), requested(FIRST_PATH)]);
}

#[test]
fn the_first_text_is_emitted_just_before_the_second_fetch_is_constructed() {
    for first_delay in 0..4u64 {
        for second_delay in 0..4u64 {
            let mut workflow =
                workflow_on(plan(Some(first_delay), "one"), plan(Some(second_delay), "two"));
            while !is_ready(&workflow.poll()) {}
            let record = workflow.host().record();
            let emission = record.iter().position(|e| *e == emitted("one")).unwrap();
            let construction = record.iter().position(|e| *e == requested(SECOND_PATH)).unwrap();
            assert_eq!(emission, 2);
            assert_eq!(construction, 3);
            assert_eq!(record[1], requested(FIRST_PATH));
        }
    }
}

#[test]
fn the_number_of_pending_polls_is_the_sum_of_the_delays() {
    for first_delay in 0..6u64 {
        for second_delay in 0..6u64 {
            let mut workflow =
                workflow_on(plan(Some(first_delay), "one"), plan(Some(second_delay), "two"));
            let mut pending = 0;
            while !is_ready(&workflow.poll()) {
                pending += 1;
            }
            assert_eq!(pending, first_delay + second_delay);
        }
    }
}

#[test]
fn the_first_poll_leaves_start_without_suspending() {
    // With the first fetch pending, the poll that leaves `Start` is the one
    // that reports it pending.
    let mut pending = workflow_on(plan(Some(5), "one"), plan(Some(5), "two"));
    assert!(!is_ready(&pending.poll()));
    assert_eq!(pending.host().record(), &vec![emitted(START_MARKER), requested(FIRST_PATH)]);
    // With the first fetch ready, the same poll already reaches the second.
    let mut ready = workflow_on(plan(Some(0), "one"), plan(Some(5), "two"));
    assert!(!is_ready(&ready.poll()));
    assert_eq!(
        ready.host().record(),
        &vec![
            emitted(START_MARKER),
            requested(FIRST_PATH),
            emitted("one"),
            requested(SECOND_PATH),
        ]
    );
}

#[test]
fn every_poll_before_the_last_is_not_ready_and_the_loop_stops_on_the_last() {
    let mut workflow = workflow_on(plan(Some(2), "one"), plan(Some(3), "two"));
    let mut directives = Vec::new();
    loop {
        let directive = after_poll(&workflow.poll());
        directives.push(directive);
        if directive == Directive::Stop {
            break;
        }
    }
    assert_eq!(
        directives,
        vec![
            Directive::Idle,
            Directive::Idle,
            Directive::Idle,
            Directive::Idle,
            Directive::Idle,
            Directive::Stop,
        ]
    );
}

#[test]
fn a_workflow_is_driven_like_any_other_computation() {
    fn drive<F: Future<Output = ()>>(computation: &mut F) -> u32 {
        let mut idle = 0;
        while after_poll(&computation.poll()) == Directive::Idle {
            idle += 1;
        }
        idle
    }
    let mut workflow = workflow_on(plan(Some(1), "one"), plan(Some(1), "two"));
    assert_eq!(drive(&mut workflow), 2);
    assert_eq!(workflow.host().record().len(), 5);
}

#[test]
fn the_host_is_asked_through_the_workflow_only() {
    let mut host = Scripted::new(vec![plan(Some(0), "one"), plan(Some(0), "two")]);
    host.emit("before");
    let mut workflow = Coroutine::new(host);
    assert!(is_ready(&workflow.poll()));
    assert_eq!(
        workflow.host().record(),
        &vec![
            emitted("before"),
            emitted(START_MARKER),
            requested(FIRST_PATH),
            emitted("one"),
            requested(SECOND_PATH),
            emitted("two"),
        ]
    );
}
