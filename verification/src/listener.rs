//! The consumer's side: the queue as a sequence of updates.
//!
//! A [`Listener`] owns the consumer end of the queue. Polling it gives the
//! next update, says that none is there yet, or says that the sequence is
//! over. The sequence is over once the queue is empty and every producer is
//! gone, and it does not start again: after the end every poll gives the end.

use crate::channel::{try_receive, Starved};
use std::convert::Infallible;
use tokio::sync::mpsc::UnboundedReceiver;
use vstd::prelude::*;

verus! {

/// What one poll of a [`Listener`] gave.
#[derive(Debug, PartialEq, Eq)]
pub enum Polled<U> {
    /// The next update. An update is never an error: bodies that cannot be
    /// parsed do not reach the queue.
    Item(Result<U, Infallible>),
    /// No update is there yet, but one may come.
    Pending,
    /// The sequence is over.
    Finished,
}

impl<U> Polled<U> {
    /// What the queue's answer to one attempt means for the consumer.
    pub fn of(received: Result<U, Starved>) -> (polled: Self)
        ensures
            polled == match received {
                Ok(update) => Polled::Item(Ok(update)),
                Err(Starved::Empty) => Polled::Pending,
                Err(Starved::Disconnected) => Polled::Finished,
            },
    {
        match received {
            Ok(update) => Polled::Item(Ok(update)),
            Err(Starved::Empty) => Polled::Pending,
            Err(Starved::Disconnected) => Polled::Finished,
        }
    }
}

/// A listener as contracts see it.
pub struct Sequence<U> {
    /// The updates that the listener has given out, oldest first.
    pub delivered: Seq<U>,
    /// Whether the sequence has been seen to end.
    pub finished: bool,
}

impl<U> Sequence<U> {
    /// The listener after a poll that gave `polled`.
    pub open spec fn after(self, polled: Polled<U>) -> Self {
        match polled {
            Polled::Item(Ok(update)) => Sequence { delivered: self.delivered.push(update), ..self },
            Polled::Item(Err(_)) => self,
            Polled::Pending => self,
            Polled::Finished => Sequence { finished: true, ..self },
        }
    }

    /// The end is for good: a poll of a listener that has seen the end is
    /// answered with the end, and leaves the listener as it was.
    pub proof fn lemma_end_is_final(self)
        requires
            self.finished,
        ensures
            self.after(Polled::Finished) == self,
    {
    }
}

/// The consumer end of the update queue.
#[verifier::reject_recursive_types(U)]
pub struct Listener<U> {
    rx: UnboundedReceiver<U>,
    finished: bool,
    delivered: Ghost<Seq<U>>,
}

impl<U> View for Listener<U> {
    type V = Sequence<U>;

    closed spec fn view(&self) -> Sequence<U> {
        Sequence { delivered: self.delivered@, finished: self.finished }
    }
}

impl<U> Listener<U> {
    /// Whether the sequence has been seen to end.
    pub open spec fn finished(&self) -> bool {
        self@.finished
    }

    /// The consumer end that the listener owns.
    pub closed spec fn receiver(self) -> UnboundedReceiver<U> {
        self.rx
    }

    /// A listener on `receiver` that has given out nothing and whose sequence
    /// has not ended.
    pub fn new(receiver: UnboundedReceiver<U>) -> (listener: Self)
        ensures
            listener@ == (Sequence::<U> { delivered: Seq::empty(), finished: false }),
            listener.receiver() == receiver,
    {
        Listener { rx: receiver, finished: false, delivered: Ghost(Seq::empty()) }
    }

    /// Polls the sequence without waiting.
    ///
    /// Once the sequence has ended the queue is not asked again: the answer is
    /// [`Polled::Finished`] from then on. Before that the queue decides. An
    /// update that is given out is an `Ok` and is added to what the listener
    /// has delivered; the listener has seen the end exactly when the answer
    /// says so.
    pub fn try_next(&mut self) -> (polled: Polled<U>)
        ensures
            old(self)@.finished ==> polled is Finished,
            polled matches Polled::Item(item) ==> item is Ok,
            final(self)@ == old(self)@.after(polled),
    {
        if self.finished {
            return Polled::Finished;
        }
        let polled = Polled::of(try_receive(&mut self.rx));
        match &polled {
            Polled::Item(Ok(update)) => {
                self.delivered = Ghost(self.delivered@.push(*update));
            },
            Polled::Finished => {
                self.finished = true;
            },
            _ => {},
        }
        polled
    }

    /// Takes note of the kinds of update that the consumer wants.
    ///
    /// The kinds are not passed on to the sender of updates yet: the call is
    /// accepted and changes nothing.
    pub fn hint_allowed_updates(&mut self, hint: &Vec<String>)
        ensures
            *final(self) == *old(self),
    {
    }

    /// Gives up the listener for the consumer end that it owns.
    pub fn into_receiver(self) -> (receiver: UnboundedReceiver<U>)
        ensures
            receiver == self.receiver(),
    {
        self.rx
    }
}

} // verus!
