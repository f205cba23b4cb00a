//! The subscriber's end of the completion channel to a publisher.
//!
//! Entries reach the publisher through a delivery function supplied by the
//! caller (the connection itself lives outside this library). Every entry
//! handed to that function passes through [`CompletionChannel::push`], which
//! records it, so the record `sent()` is exactly the sequence of entries
//! delivered, in order.
use vstd::prelude::*;
use crate::completion_entry::CompletionEntry;

verus! {

/// What the connection answers to an entry handed to it.
#[derive(Debug, Clone, Copy, PartialEq, Eq, Structural, Hash)]
pub enum PushAnswer {
    /// The entry is on the publisher's completion queue.
    Accepted,
    /// The completion queue is full; the entry was not queued.
    QueueFull,
    /// The connection back to the publisher is gone; the entry was not
    /// queued.
    PublisherGone,
}

/// The subscriber's end of a completion channel: a delivery function and
/// the record of every entry handed to it.
pub struct CompletionChannel<F> {
    deliver: F,
    sent: Ghost<Seq<CompletionEntry>>,
}

impl<F: Fn(CompletionEntry) -> PushAnswer> CompletionChannel<F> {
    /// The delivery function.
    pub closed spec fn spec_deliver(&self) -> F {
        self.deliver
    }

    /// Every entry handed to the delivery function so far, in order.
    pub closed spec fn sent(&self) -> Seq<CompletionEntry> {
        self.sent@
    }

    /// The delivery function may be called with any entry.
    pub open spec fn accepts_any_entry(&self) -> bool {
        forall|entry: CompletionEntry| call_requires(self.spec_deliver(), (entry,))
    }

    /// What the delivery function may answer to `entry`.
    pub open spec fn may_answer(&self, entry: CompletionEntry, answer: PushAnswer) -> bool {
        call_ensures(self.spec_deliver(), (entry,), answer)
    }

    /// A channel that delivers through `deliver` and has sent nothing yet.
    pub fn new(deliver: F) -> (channel: Self)
        ensures
            channel.spec_deliver() == deliver,
            channel.sent() == Seq::<CompletionEntry>::empty(),
    {
        CompletionChannel { deliver, sent: Ghost(Seq::empty()) }
    }

    /// Hands `entry` to the delivery function and returns its answer.
    pub fn push(&mut self, entry: CompletionEntry) -> (answer: PushAnswer)
        requires
            old(self).accepts_any_entry(),
        ensures
            final(self).spec_deliver() == old(self).spec_deliver(),
            final(self).sent() == old(self).sent().push(entry),
            old(self).may_answer(entry, answer),
    {
        assert(call_requires(self.spec_deliver(), (entry,)));
        let answer = (self.deliver)(entry);
        self.sent = Ghost(self.sent@.push(entry));
        answer
    }
}

} // verus!
