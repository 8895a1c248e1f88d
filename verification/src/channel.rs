//! The producer end of the update queue, and a slot that can give it up.
//!
//! The queue is an unbounded channel of `tokio`. Request handling keeps its
//! producer end in a [`ClosableSender`]: a slot that hands out clones of the
//! producer while it is open and nothing once it has been closed. Closing
//! drops the slot's own producer, so that the consumer's sequence can end,
//! without touching the clones that are already out.

use tokio::sync::mpsc::error::TryRecvError;
use tokio::sync::mpsc::{UnboundedReceiver, UnboundedSender};
use vstd::prelude::*;

verus! {

/// `tokio::sync::mpsc::UnboundedSender`, carried as an opaque value.
#[verifier::external_type_specification]
#[verifier::external_body]
#[verifier::reject_recursive_types(T)]
pub struct ExUnboundedSender<T>(UnboundedSender<T>);

/// `tokio::sync::mpsc::UnboundedReceiver`, carried as an opaque value.
#[verifier::external_type_specification]
#[verifier::external_body]
#[verifier::reject_recursive_types(T)]
pub struct ExUnboundedReceiver<T>(UnboundedReceiver<T>);

/// Why the consumer end of a channel had nothing to give.
#[derive(Clone, Copy, Debug, PartialEq, Eq, Structural)]
pub enum Starved {
    /// The channel is empty for now: producers are still out.
    Empty,
    /// The channel is empty and no producer is left: nothing will come.
    Disconnected,
}

/// `tokio::sync::mpsc::unbounded_channel`: a new channel, as its two ends.
///
/// Nothing is claimed of the ends: both are opaque here.
#[verifier::external_body]
pub(crate) fn open_channel<T>() -> (ends: (UnboundedSender<T>, UnboundedReceiver<T>)) {
    tokio::sync::mpsc::unbounded_channel()
}

/// `UnboundedReceiver::try_recv`: takes the next message if one is there.
///
/// Which of the three answers comes depends on what the producers have done
/// by then, so nothing is claimed of it.
#[verifier::external_body]
pub(crate) fn try_receive<T>(receiver: &mut UnboundedReceiver<T>) -> (r: Result<T, Starved>) {
    match receiver.try_recv() {
        Ok(message) => Ok(message),
        Err(TryRecvError::Empty) => Err(Starved::Empty),
        Err(TryRecvError::Disconnected) => Err(Starved::Disconnected),
    }
}

/// `UnboundedSender::clone`: another producer for the same channel.
///
/// Nothing is claimed of the clone: a producer is opaque here.
#[verifier::external_body]
fn clone_sender<T>(sender: &UnboundedSender<T>) -> (copy: UnboundedSender<T>) {
    sender.clone()
}

/// `UnboundedSender::send`: puts `message` on the channel without waiting.
///
/// Whether the channel takes the message depends on the receiving half, which
/// may have been closed or dropped by then. What holds either way: a message
/// that was not taken comes back unchanged.
#[verifier::external_body]
pub(crate) fn send_message<T>(sender: &UnboundedSender<T>, message: T) -> (r: Result<(), T>)
    ensures
        r matches Err(back) ==> back == message,
{
    match sender.send(message) {
        Ok(()) => Ok(()),
        Err(refused) => Err(refused.0),
    }
}

/// A slot for the producer end of a channel that can be emptied for good.
///
/// The slot is one value. Where several tasks use it, its owner keeps it
/// behind a lock: [`get`](Self::get) needs shared access only,
/// [`close`](Self::close) exclusive access.
#[verifier::reject_recursive_types(T)]
pub struct ClosableSender<T> {
    origin: Option<UnboundedSender<T>>,
}

impl<T> ClosableSender<T> {
    /// The producer that the slot holds, if it holds one.
    pub closed spec fn producer(&self) -> Option<UnboundedSender<T>> {
        self.origin
    }

    /// Whether the slot still holds its producer.
    pub open spec fn is_open(&self) -> bool {
        self.producer() is Some
    }

    /// An open slot around `sender`.
    pub fn new(sender: UnboundedSender<T>) -> (slot: Self)
        ensures
            slot.producer() == Some(sender),
    {
        ClosableSender { origin: Some(sender) }
    }

    /// A clone of the producer while the slot is open, nothing once it is closed.
    pub fn get(&self) -> (handle: Option<UnboundedSender<T>>)
        ensures
            handle is Some <==> self.is_open(),
    {
        match &self.origin {
            Some(sender) => Some(clone_sender(sender)),
            None => None,
        }
    }

    /// The slot once it has been closed.
    pub closed spec fn closed(self) -> Self {
        ClosableSender { origin: None }
    }

    /// Empties the slot. Closing a closed slot changes nothing; producers that
    /// [`get`](Self::get) handed out earlier stay usable.
    pub fn close(&mut self)
        ensures
            *final(self) == old(self).closed(),
            final(self).producer() is None,
    {
        self.origin = None;
    }

    /// A closed slot stays closed, and closing again changes nothing.
    pub proof fn lemma_close_is_idempotent(self)
        ensures
            self.closed().producer() is None,
            self.closed().closed() == self.closed(),
            !self.is_open() ==> self.closed() == self,
    {
    }
}

} // verus!
