use coroutine::{Coroutine, Future, Host, PollState, Text, Trace, SECOND_PATH};
use std::cell::RefCell;
use std::rc::Rc;

/// One observation, in the order in which it was made.
#[derive(Clone, Debug, PartialEq, Eq)]
enum Seen {
    Emitted(String),
    Constructed(String),
    Polled(String),
    NotReady,
    Ready,
}

type Log = Rc<RefCell<Vec<Seen>>>;

/// Gives its text on the first poll.
struct Immediate {
    name: String,
    log: Log,
    done: bool,
}

impl Future for Immediate {
    type Output = String;

    fn resolved(&self) -> bool {
        self.done
    }

    fn polls_to(&self, _outcome: PollState<String>, _after: &Self) -> bool {
        unreachable!()
    }

    fn poll(&mut self) -> PollState<String> {
        assert!(!self.done);
        self.log.borrow_mut().push(Seen::Polled(self.name.clone()));
        self.done = true;
        PollState::Ready(self.name.clone())
    }
}

/// Is pending for a number of polls before it gives its text.
struct Countdown {
    name: String,
    left: u32,
    log: Log,
    done: bool,
}

impl Future for Countdown {
    type Output = String;

    fn resolved(&self) -> bool {
        self.done
    }

    fn polls_to(&self, _outcome: PollState<String>, _after: &Self) -> bool {
        unreachable!()
    }

    fn poll(&mut self) -> PollState<String> {
        assert!(!self.done);
        self.log.borrow_mut().push(Seen::Polled(self.name.clone()));
        if self.left == 0 {
            self.done = true;
            PollState::Ready(self.name.clone())
        } else {
            self.left -= 1;
            PollState::NotReady
        }
    }
}

/// Either of the two, so that one host can hand out both.
enum Either {
    Now(Immediate),
    Later(Countdown),
}

impl Future for Either {
    type Output = String;

    fn resolved(&self) -> bool {
        match self {
            Either::Now(fetch) => fetch.resolved(),
            Either::Later(fetch) => fetch.resolved(),
        }
    }

    fn polls_to(&self, _outcome: PollState<String>, _after: &Self) -> bool {
        unreachable!()
    }

    fn poll(&mut self) -> PollState<String> {
        match self {
            Either::Now(fetch) => fetch.poll(),
            Either::Later(fetch) => fetch.poll(),
        }
    }
}

/// A host whose fetches are of two concrete types, boxed.
struct Mixed {
    log: Log,
}

impl Host for Mixed {
    type Fetch = Box<Either>;

    fn effects(&self) -> Trace {
        unreachable!()
    }

    fn emits(&self, _text: Text, _after: &Self) -> bool {
        unreachable!()
    }

    fn gets(&self, _path: Text, _after: &Self, _fetch: &Self::Fetch) -> bool {
        unreachable!()
    }

    fn emit(&mut self, text: &str) {
        self.log.borrow_mut().push(Seen::Emitted(text.to_string()));
    }

    fn get(&mut self, path: &str) -> Self::Fetch {
        self.log.borrow_mut().push(Seen::Constructed(path.to_string()));
        if path == SECOND_PATH {
            Box::new(Either::Later(Countdown {
                name: String::from("second"),
                left: 2,
                log: self.log.clone(),
                done: false,
            }))
        } else {
            Box::new(Either::Now(Immediate {
                name: String::from("first"),
                log: self.log.clone(),
                done: false,
            }))
        }
    }
}

#[test]
fn fetches_of_different_types_are_driven_in_order() {
    let log: Log = Rc::new(RefCell::new(Vec::new()));
    let mut workflow = Coroutine::new(Mixed { log: log.clone() });
    loop {
        match workflow.poll() {
            PollState::NotReady => log.borrow_mut().push(Seen::NotReady),
            PollState::Ready(()) => {
                log.borrow_mut().push(Seen::Ready);
                break;
            }
        }
    }
    let polled = |name: &str| Seen::Polled(name.to_string());
    assert_eq!(
        *log.borrow(),
        vec![
            Seen::Emitted(String::from("Program starting")),
            Seen::Constructed(String::from("/600/HelloWorld1")),
            polled("first"),
            Seen::Emitted(String::from("first")),
            Seen::Constructed(String::from("/400/HelloWorld2")),
            polled("second"),
            Seen::NotReady,
            polled("second"),
            Seen::NotReady,
            polled("second"),
            Seen::Emitted(String::from("second")),
            Seen::Ready,
        ]
    );
}

#[test]
fn no_fetch_is_polled_after_it_gave_its_text() {
    let log: Log = Rc::new(RefCell::new(Vec::new()));
    let mut workflow = Coroutine::new(Mixed { log: log.clone() });
    while matches!(workflow.poll(), PollState::NotReady) {}
    let seen = log.borrow();
    let first_polls = seen.iter().filter(|s| **s == Seen::Polled(String::from("first"))).count();
    let second_polls = seen.iter().filter(|s| **s == Seen::Polled(String::from("second"))).count();
    assert_eq!(first_polls, 1);
    assert_eq!(second_polls, 3);
}
