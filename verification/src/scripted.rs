//! A host without I/O. Its fetches answer from a script, and it keeps a
//! record of what it was asked, so that a workflow can be run and watched
//! poll by poll.

use vstd::prelude::*;
use crate::future::Future;
use crate::future::PollState;
use crate::host::Effect;
use crate::host::Host;
use crate::host::Text;
use crate::host::Trace;

verus! {

/// A fetch that answers `NotReady` a given number of times and then gives
/// its text, or that never gives it.
pub struct Delayed {
    pending: Option<u64>,
    text: Option<String>,
}

impl Delayed {
    /// How many polls still answer `NotReady`; `None` where every poll does.
    pub closed spec fn pending(&self) -> Option<nat> {
        match self.pending {
            Some(n) => Some(n as nat),
            None => None,
        }
    }

    /// The text that the fetch has yet to give.
    pub closed spec fn text(&self) -> Seq<char>
        recommends
            !self.resolved(),
    {
        match self.text {
            Some(text) => text@,
            None => Seq::empty(),
        }
    }

    /// A fetch that gives `text` on the poll that follows `polls` polls
    /// answered with `NotReady`.
    pub fn after(polls: u64, text: String) -> (fetch: Delayed)
        ensures
            !fetch.resolved(),
            fetch.pending() == Some(polls as nat),
            fetch.text() == text@,
    {
        Delayed { pending: Some(polls), text: Some(text) }
    }

    /// A fetch that is never ready. The text that it never gives is empty.
    pub fn never() -> (fetch: Delayed)
        ensures
            !fetch.resolved(),
            fetch.pending() is None,
            fetch.text() == Seq::<char>::empty(),
    {
        Delayed { pending: None, text: Some(String::new()) }
    }
}

impl Future for Delayed {
    type Output = String;

    closed spec fn resolved(&self) -> bool {
        self.text is None
    }

    /// A fetch without delay gives its text and is resolved. Every other
    /// poll answers `NotReady`, counts the delay down by one where there is
    /// one, and keeps the text.
    open spec fn polls_to(&self, outcome: PollState<String>, after: &Self) -> bool {
        match self.pending() {
            Some(n) => if n == 0 {
                &&& outcome matches PollState::Ready(text) && text@ == self.text()
                &&& after.resolved()
            } else {
                &&& outcome is NotReady
                &&& after.pending() == Some((n - 1) as nat)
                &&& after.text() == self.text()
                &&& !after.resolved()
            },
            None => {
                &&& outcome is NotReady
                &&& after.pending() is None
                &&& after.text() == self.text()
                &&& !after.resolved()
            },
        }
    }

    fn poll(&mut self) -> (outcome: PollState<String>) {
        match self.pending {
            Some(n) => {
                if n == 0 {
                    match self.text.take() {
                        Some(text) => PollState::Ready(text),
                        None => unreached(),
                    }
                } else {
                    self.pending = Some(n - 1);
                    PollState::NotReady
                }
            },
            None => PollState::NotReady,
        }
    }
}

/// The script of one fetch.
pub struct Plan {
    /// How many polls the fetch answers with `NotReady` before it gives its
    /// text; `None` for a fetch that is never ready.
    pub pending: Option<u64>,
    /// The text that the fetch gives.
    pub text: String,
}

impl Plan {
    /// The delay as a number of polls; `None` for a fetch that is never
    /// ready.
    pub open spec fn delay(self) -> Option<nat> {
        match self.pending {
            Some(n) => Some(n as nat),
            None => None,
        }
    }
}

/// One entry of the record that a scripted host keeps.
#[derive(Debug, PartialEq, Eq)]
pub enum Entry {
    /// This line was emitted.
    Emitted(String),
    /// A fetch of this resource was constructed.
    Requested(String),
}

impl Entry {
    /// The call that the entry records.
    pub open spec fn effect(self) -> Effect {
        match self {
            Entry::Emitted(text) => Effect::Emitted(text@),
            Entry::Requested(path) => Effect::Requested(path@),
        }
    }
}

/// The calls that a record holds, oldest first.
pub open spec fn effects_of(record: Seq<Entry>) -> Trace {
    record.map_values(|entry: Entry| entry.effect())
}

/// A host that hands out the fetches of a script, one for each request in
/// turn, and records every call. A request beyond the end of the script gets
/// a fetch that is never ready.
pub struct Scripted {
    plans: Vec<Plan>,
    handed_out: usize,
    record: Vec<Entry>,
}

impl Scripted {
    /// The script that the host was made with.
    pub closed spec fn script(&self) -> Seq<Plan> {
        self.plans@
    }

    /// How many fetches of the script have been handed out.
    pub closed spec fn handed_out(&self) -> nat {
        self.handed_out as nat
    }

    /// The record that the host keeps.
    pub closed spec fn kept(&self) -> Seq<Entry> {
        self.record@
    }

    /// A host with the script `plans`, which has been asked nothing.
    pub fn new(plans: Vec<Plan>) -> (host: Scripted)
        ensures
            host.script() == plans@,
            host.handed_out() == 0,
            host.kept() == Seq::<Entry>::empty(),
    {
        Scripted { plans, handed_out: 0, record: Vec::new() }
    }

    /// Every call made on the host so far, oldest first.
    pub fn record(&self) -> (record: &Vec<Entry>)
        ensures
            record@ == self.kept(),
    {
        &self.record
    }
}

impl Host for Scripted {
    type Fetch = Delayed;

    open spec fn effects(&self) -> Trace {
        effects_of(self.kept())
    }

    /// The record grows by the line; script and count stay.
    open spec fn emits(&self, text: Text, after: &Self) -> bool {
        &&& after.kept().len() == self.kept().len() + 1
        &&& after.kept().drop_last() == self.kept()
        &&& after.kept().last() matches Entry::Emitted(line) && line@ == text
        &&& after.script() == self.script()
        &&& after.handed_out() == self.handed_out()
    }

    /// The record grows by the request, the script stays, and the fetch is
    /// the next of the script, or one that is never ready where the script
    /// has run out.
    open spec fn gets(&self, path: Text, after: &Self, fetch: &Delayed) -> bool {
        &&& after.kept().len() == self.kept().len() + 1
        &&& after.kept().drop_last() == self.kept()
        &&& after.kept().last() matches Entry::Requested(resource) && resource@ == path
        &&& after.script() == self.script()
        &&& self.handed_out() < self.script().len() ==> {
            let plan = self.script()[self.handed_out() as int];
            &&& after.handed_out() == self.handed_out() + 1
            &&& fetch.pending() == plan.delay()
            &&& fetch.text() == plan.text@
        }
        &&& self.handed_out() >= self.script().len() ==> {
            &&& after.handed_out() == self.handed_out()
            &&& fetch.pending() is None
            &&& fetch.text() == Seq::<char>::empty()
        }
    }

    fn emit(&mut self, text: &str) {
        self.record.push(Entry::Emitted(text.to_owned()));
        assert(self.kept().drop_last() =~= old(self).kept());
        assert(self.effects() =~= old(self).effects().push(Effect::Emitted(text@)));
    }

    fn get(&mut self, path: &str) -> (fetch: Delayed) {
        self.record.push(Entry::Requested(path.to_owned()));
        assert(self.kept().drop_last() =~= old(self).kept());
        assert(self.effects() =~= old(self).effects().push(Effect::Requested(path@)));
        if self.handed_out < self.plans.len() {
            let plan = &self.plans[self.handed_out];
            let fetch = Delayed { pending: plan.pending, text: Some(plan.text.clone()) };
            self.handed_out = self.handed_out + 1;
            fetch
        } else {
            Delayed::never()
        }
    }
}

} // verus!
