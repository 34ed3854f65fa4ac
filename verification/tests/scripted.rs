use coroutine::{Delayed, Entry, Future, Host, Plan, PollState, Scripted};

fn text_of(outcome: PollState<String>) -> Option<String> {
    match outcome {
        PollState::Ready(text) => Some(text),
        PollState::NotReady => None,
    }
}

#[test]
fn a_fetch_without_delay_gives_its_text_on_the_first_poll() {
    let mut fetch = Delayed::after(0, String::from("text"));
    assert_eq!(text_of(fetch.poll()), Some(String::from("text")));
}

#[test]
fn a_delayed_fetch_is_pending_for_as_many_polls_as_it_was_given() {
    let mut fetch = Delayed::after(3, String::from("HelloWorld1"));
    for _ in 0..3 {
        assert_eq!(text_of(fetch.poll()), None);
    }
    assert_eq!(text_of(fetch.poll()), Some(String::from("HelloWorld1")));
}

#[test]
fn a_fetch_that_is_never_ready_stays_pending() {
    let mut fetch = Delayed::never();
    for _ in 0..10_000 {
        assert_eq!(text_of(fetch.poll()), None);
    }
}

#[test]
fn the_largest_delay_counts_down() {
    let mut fetch = Delayed::after(u64::MAX, String::from("late"));
    assert_eq!(text_of(fetch.poll()), None);
    assert_eq!(text_of(fetch.poll()), None);
}

#[test]
fn a_boxed_fetch_polls_the_one_it_holds() {
    let mut boxed: Box<Delayed> = Box::new(Delayed::after(1, String::from("text")));
    assert_eq!(text_of(boxed.poll()), None);
    assert_eq!(text_of(boxed.poll()), Some(String::from("text")));
    let mut twice: Box<Box<Delayed>> = Box::new(Box::new(Delayed::after(0, String::from("x"))));
    assert_eq!(text_of(twice.poll()), Some(String::from("x")));
}

#[test]
fn a_new_host_has_an_empty_record() {
    let host = Scripted::new(Vec::new());
    assert!(host.record().is_empty());
}

#[test]
fn the_host_records_every_call_in_order() {
    let mut host = Scripted::new(Vec::new());
    host.emit("one");
    let _ = host.get("/a");
    host.emit("two");
    assert_eq!(
        host.record(),
        &vec![
            Entry::Emitted(String::from("one")),
            Entry::Requested(String::from("/a")),
            Entry::Emitted(String::from("two")),
        ]
    );
}

#[test]
fn the_host_hands_out_the_fetches_of_its_script_in_turn() {
    let script = vec![
        Plan { pending: Some(1), text: String::from("first") },
        Plan { pending: Some(0), text: String::from("second") },
    ];
    let mut host = Scripted::new(script);
    let mut a = host.get("/a");
    let mut b = host.get("/b");
    assert_eq!(text_of(b.poll()), Some(String::from("second")));
    assert_eq!(text_of(a.poll()), None);
    assert_eq!(text_of(a.poll()), Some(String::from("first")));
}

#[test]
fn a_request_beyond_the_script_is_never_answered() {
    let mut host = Scripted::new(vec![Plan { pending: Some(0), text: String::from("only") }]);
    let mut first = host.get("/a");
    let mut beyond = host.get("/b");
    assert_eq!(text_of(first.poll()), Some(String::from("only")));
    for _ in 0..100 {
        assert_eq!(text_of(beyond.poll()), None);
    }
    assert_eq!(host.record().len(), 2);
}

#[test]
fn a_plan_without_a_delay_never_gives_its_text() {
    let mut host = Scripted::new(vec![Plan { pending: None, text: String::from("unseen") }]);
    let mut fetch = host.get("/a");
    for _ in 0..100 {
        assert_eq!(text_of(fetch.poll()), None);
    }
}
