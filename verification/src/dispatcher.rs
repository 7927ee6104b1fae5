//! The queue between the code that reports and the one worker that delivers.
//!
//! Messages leave in the order in which they came. A failed delivery is
//! reported where it happened and changes nothing here. The worker is told to
//! stop only when a shutdown was asked for and nothing is left to deliver.

use crate::text::texts;
use std::collections::VecDeque;
use vstd::prelude::*;
use vstd::string::*;

verus! {

/// What the worker does next.
#[derive(Debug)]
pub enum WorkerStep {
    /// Deliver this message, then ask again.
    Deliver(String),
    /// Nothing to deliver yet: wait for an enqueue or a shutdown.
    Idle,
    /// Everything was handed out and a shutdown was asked for: end.
    Stop,
}

/// The ordered queue of outbound messages.
pub struct Dispatcher {
    queue: VecDeque<String>,
    closing: bool,
    attempted: Ghost<Seq<Seq<char>>>,
}

/// The line that reports a failed delivery.
pub open spec fn delivery_failure_text(detail: Seq<char>) -> Seq<char> {
    "Failed to send telegram message: "@ + detail
}

impl Dispatcher {
    /// The messages that wait for delivery, oldest first.
    pub closed spec fn pending(&self) -> Seq<Seq<char>> {
        texts(self.queue@)
    }

    /// The messages that were handed to the worker, in the order of handing.
    pub closed spec fn attempted(&self) -> Seq<Seq<char>> {
        self.attempted@
    }

    /// Every message that was ever enqueued, in the order of enqueuing.
    pub open spec fn accepted(&self) -> Seq<Seq<char>> {
        self.attempted() + self.pending()
    }

    /// Whether a shutdown was asked for.
    pub closed spec fn closing(&self) -> bool {
        self.closing
    }

    /// Whether the worker has nothing more to do, now or later.
    pub open spec fn drained(&self) -> bool {
        self.closing() && self.pending().len() == 0
    }

    /// A queue that holds nothing and is open.
    pub fn new() -> (dispatcher: Self)
        ensures
            dispatcher.pending() == Seq::<Seq<char>>::empty(),
            dispatcher.attempted() == Seq::<Seq<char>>::empty(),
            dispatcher.accepted() == Seq::<Seq<char>>::empty(),
            !dispatcher.closing(),
    {
        Dispatcher { queue: VecDeque::new(), closing: false, attempted: Ghost(Seq::empty()) }
    }

    /// Puts `message` at the end of the queue. Not to be called once a
    /// shutdown was asked for.
    pub fn enqueue(&mut self, message: String)
        requires
            !old(self).closing(),
        ensures
            final(self).pending() == old(self).pending().push(message@),
            final(self).accepted() == old(self).accepted().push(message@),
            final(self).attempted() == old(self).attempted(),
            !final(self).closing(),
    {
        self.queue.push_back(message);
    }

    /// Asks for the shutdown: what is queued is still delivered, nothing more
    /// is taken.
    pub fn shutdown(&mut self)
        ensures
            final(self).closing(),
            final(self).pending() == old(self).pending(),
            final(self).attempted() == old(self).attempted(),
            final(self).accepted() == old(self).accepted(),
    {
        self.closing = true;
    }

    /// Whether a shutdown was asked for.
    pub fn is_closing(&self) -> (closing: bool)
        ensures
            closing == self.closing(),
    {
        self.closing
    }

    /// How many messages wait for delivery.
    pub fn pending_len(&self) -> (n: usize)
        ensures
            n == self.pending().len(),
    {
        self.queue.len()
    }

    /// Tells the worker what to do next. The oldest waiting message is handed
    /// out where there is one; else the worker stops where a shutdown was
    /// asked for, and idles where not.
    pub fn next_step(&mut self) -> (step: WorkerStep)
        ensures
            final(self).closing() == old(self).closing(),
            final(self).accepted() == old(self).accepted(),
            match step {
                WorkerStep::Deliver(message) => {
                    &&& old(self).pending().len() > 0
                    &&& message@ == old(self).pending()[0]
                    &&& final(self).pending() == old(self).pending().drop_first()
                    &&& final(self).attempted() == old(self).attempted().push(message@)
                },
                WorkerStep::Idle => {
                    &&& old(self).pending().len() == 0
                    &&& !old(self).closing()
                    &&& final(self).pending() == old(self).pending()
                    &&& final(self).attempted() == old(self).attempted()
                },
                WorkerStep::Stop => {
                    &&& old(self).drained()
                    &&& final(self).pending() == old(self).pending()
                    &&& final(self).attempted() == old(self).attempted()
                    &&& final(self).attempted() == final(self).accepted()
                },
            },
    {
        match self.queue.pop_front() {
            Some(message) => {
                proof {
                    self.attempted@ = self.attempted@.push(message@);
                }
                WorkerStep::Deliver(message)
            },
            None => {
                if self.closing {
                    WorkerStep::Stop
                } else {
                    WorkerStep::Idle
                }
            },
        }
    }

    /// Takes note of how a delivery ended. A failure yields the line to report
    /// it with, a success yields nothing; either way the queue is as it was.
    pub fn settle(&self, outcome: Result<(), String>) -> (report: Option<String>)
        ensures
            match outcome {
                Ok(_) => report is None,
                Err(detail) => report matches Some(line) && line@ == delivery_failure_text(
                    detail@,
                ),
            },
    {
        match outcome {
            Ok(_) => None,
            Err(detail) => {
                let mut line = String::from_str("Failed to send telegram message: ");
                line.append(detail.as_str());
                Some(line)
            },
        }
    }

    /// What was handed to the worker is a front part of what was enqueued, in
    /// the same order: no message overtakes an older one, and none is handed
    /// out twice.
    pub proof fn lemma_attempts_follow_enqueue_order(&self)
        ensures
            self.attempted().is_prefix_of(self.accepted()),
            self.accepted().len() == self.attempted().len() + self.pending().len(),
            forall|i: int|
                0 <= i < self.attempted().len() ==> self.attempted()[i] == self.accepted()[i],
            forall|i: int|
                0 <= i < self.pending().len() ==> self.pending()[i] == self.accepted()[
                    self.attempted().len() + i],
            self.drained() ==> self.attempted() == self.accepted(),
    {
        if self.drained() {
        }
    }
}

} // verus!
