use coroutine::{after_poll, Directive, PollState};

#[test]
fn the_loop_idles_after_not_ready() {
    let outcome: PollState<()> = PollState::NotReady;
    assert_eq!(after_poll(&outcome), Directive::Idle);
}

#[test]
fn the_loop_stops_after_ready() {
    assert_eq!(after_poll(&PollState::Ready(())), Directive::Stop);
    assert_eq!(after_poll(&PollState::Ready(String::from("text"))), Directive::Stop);
}

#[test]
fn the_directive_does_not_depend_on_the_output_type() {
    let text: PollState<String> = PollState::NotReady;
    let number: PollState<u64> = PollState::NotReady;
    assert_eq!(after_poll(&text), after_poll(&number));
    assert_ne!(after_poll(&text), Directive::Stop);
}
