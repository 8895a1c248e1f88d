//! Handling of one inbound request.
//!
//! A request is authenticated, turned away if the endpoint no longer takes
//! updates, and otherwise its update is put on the queue. Every request is
//! answered with one of four statuses.
//!
//! Handling has two steps, so that a body is only parsed for a request that
//! is let in: [`WebhookState::screen`] looks at the secret header and at the
//! endpoint, [`WebhookState::deliver`] takes the parsed body.
//! [`WebhookState::telegram_request`] is both in one go.
//!
//! The endpoint's state is one value. Whoever serves requests concurrently
//! keeps it behind a lock and takes the lock for each step; a request that
//! was let in before a stop still delivers after it.

use crate::channel::{send_message, ClosableSender};
use crate::endpoint::{Endpoint, Outcome, StatusCode};
use crate::secret::{bytes_of, check_secret, matches_secret, well_formed};
use crate::stop::{StopEffect, StopSignal};
use tokio::sync::mpsc::UnboundedSender;
use vstd::prelude::*;

verus! {

/// Name of the header that carries the secret, in lower case.
pub fn secret_header_name() -> (name: &'static str)
    ensures
        name@ == "x-telegram-bot-api-secret-token"@,
{
    "x-telegram-bot-api-secret-token"
}

/// The secret header of a request, once its shape has been checked.
pub struct XTelegramBotApiSecretToken(Option<Vec<u8>>);

impl XTelegramBotApiSecretToken {
    #[verifier::type_invariant]
    spec fn shape_checked(self) -> bool {
        self.0 matches Some(bytes) ==> well_formed(bytes@)
    }

    /// The header's bytes, if the request has the header.
    pub closed spec fn bytes(&self) -> Option<Seq<u8>> {
        match self.0 {
            Some(bytes) => Some(bytes@),
            None => None,
        }
    }

    /// Takes the secret header out of what a request carried under
    /// [`secret_header_name`]: `None` where it has no such header.
    ///
    /// A malformed header is answered with [`StatusCode::BadRequest`] and never
    /// reaches the comparison with the configured secret.
    pub fn from_request_parts(header: Option<&[u8]>) -> (r: Result<Self, StatusCode>)
        ensures
            r is Ok <==> (header matches Some(raw) ==> well_formed(raw@)),
            r matches Ok(token) ==> token.bytes() == bytes_of(header),
            r matches Err(status) ==> status == StatusCode::BadRequest,
    {
        match header {
            Some(raw) => match check_secret(raw) {
                Ok(checked) => Ok(XTelegramBotApiSecretToken(Some(slice_to_vec(checked)))),
                Err(_) => Err(StatusCode::BadRequest),
            },
            None => Ok(XTelegramBotApiSecretToken(None)),
        }
    }
}

/// An owned copy of `bytes`.
fn slice_to_vec(bytes: &[u8]) -> (v: Vec<u8>)
    ensures
        v@ == bytes@,
{
    let mut v: Vec<u8> = Vec::with_capacity(bytes.len());
    let mut i: usize = 0;
    while i < bytes.len()
        invariant
            i <= bytes.len(),
            v@ == bytes@.subrange(0, i as int),
        decreases bytes.len() - i,
    {
        v.push(bytes[i]);
        proof {
            assert(v@ =~= bytes@.subrange(0, i + 1));
        }
        i += 1;
    }
    proof {
        assert(v@ =~= bytes@);
    }
    v
}

/// A request that an endpoint has let in and that has not handed over its
/// body yet. It holds a producer of its own, so that it can run to its end
/// whatever becomes of the endpoint meanwhile.
#[verifier::reject_recursive_types(U)]
pub struct InFlight<U> {
    tx: UnboundedSender<U>,
}

/// What request handling shares: the producer slot, the stop signal and the
/// configured secret.
#[verifier::reject_recursive_types(U)]
pub struct WebhookState<U> {
    tx: ClosableSender<U>,
    flag: StopSignal,
    secret: Option<Vec<u8>>,
    enqueued: Ghost<Seq<U>>,
}

impl<U> View for WebhookState<U> {
    type V = Endpoint<U>;

    closed spec fn view(&self) -> Endpoint<U> {
        Endpoint {
            secret: match self.secret {
                Some(bytes) => Some(bytes@),
                None => None,
            },
            open: self.tx.is_open(),
            stopped: self.flag.stopped(),
            enqueued: self.enqueued@,
        }
    }
}

impl<U> WebhookState<U> {
    /// An endpoint that feeds `sender`, is running, and has put nothing on the
    /// queue yet.
    pub fn new(sender: UnboundedSender<U>, secret: Option<Vec<u8>>) -> (state: Self)
        ensures
            state@ == (Endpoint::<U> {
                secret: match secret {
                    Some(bytes) => Some(bytes@),
                    None => None,
                },
                open: true,
                stopped: false,
                enqueued: Seq::empty(),
            }),
    {
        WebhookState {
            tx: ClosableSender::new(sender),
            flag: StopSignal::new(),
            secret,
            enqueued: Ghost(Seq::empty()),
        }
    }

    /// Stops the endpoint: from now on no request puts an update on the queue.
    /// Says whether this call made the transition.
    pub fn stop(&mut self) -> (effect: StopEffect)
        ensures
            final(self)@ == old(self)@.stop(),
            effect == if old(self)@.stopped {
                StopEffect::AlreadyStopped
            } else {
                StopEffect::Stopped
            },
    {
        self.flag.stop()
    }

    /// Whether the endpoint has been stopped.
    pub fn is_stopped(&self) -> (b: bool)
        ensures
            b == self@.stopped,
    {
        self.flag.is_stopped()
    }

    /// Makes the endpoint give up its producer, so that the consumer's
    /// sequence ends once the producers that are already out are gone.
    pub fn close(&mut self)
        ensures
            final(self)@ == old(self)@.close(),
    {
        self.tx.close();
    }

    /// Looks at a request's secret header and lets the request in or turns
    /// it away, before its body is looked at.
    ///
    /// The request is turned away with [`Outcome::Unauthorized`] unless it
    /// carries the configured secret, with [`Outcome::Closed`] if the endpoint
    /// has given up its producer, and with [`Outcome::Stopped`] if the endpoint
    /// was stopped, in which case it gives up its producer now. A request that
    /// is let in gets a producer of its own.
    pub fn screen(&mut self, secret_header: XTelegramBotApiSecretToken) -> (r: Result<
        InFlight<U>,
        Outcome<U>,
    >)
        ensures
            final(self)@ == old(self)@.screen(secret_header.bytes()).0,
            r is Ok <==> old(self)@.screen(secret_header.bytes()).1 is None,
            r matches Err(outcome) ==> old(self)@.screen(secret_header.bytes()).1 == Some(outcome),
    {
        proof {
            use_type_invariant(&secret_header);
        }
        let sent: Option<&[u8]> = match &secret_header.0 {
            Some(bytes) => Some(bytes.as_slice()),
            None => None,
        };
        let expected: Option<&[u8]> = match &self.secret {
            Some(bytes) => Some(bytes.as_slice()),
            None => None,
        };
        if !matches_secret(sent, expected) {
            return Err(Outcome::Unauthorized);
        }
        let tx = match self.tx.get() {
            None => {
                return Err(Outcome::Closed);
            },
            Some(tx) => tx,
        };
        if self.flag.is_stopped() {
            self.tx.close();
            return Err(Outcome::Stopped);
        }
        Ok(InFlight { tx })
    }

    /// Deals with the body of a request that was let in.
    ///
    /// `parsed` is the update that the body holds, if it holds one. A body
    /// without an update is [`Outcome::Unparsable`]. An update is offered to
    /// the queue through the request's own producer:
    /// [`Outcome::Enqueued`] if the queue took it, and then it is the last of
    /// what the endpoint has enqueued; [`Outcome::ReceiverGone`] if not.
    /// Whether the endpoint was stopped meanwhile makes no difference.
    ///
    /// `in_flight` is what [`screen`](Self::screen) of this endpoint gave for
    /// the request.
    pub fn deliver(&mut self, in_flight: InFlight<U>, parsed: Option<U>) -> (outcome: Outcome<U>)
        ensures
            (final(self)@, outcome) == old(self)@.deliver(parsed, !(outcome is ReceiverGone)),
    {
        match parsed {
            Some(update) => {
                let ghost log = self.enqueued@.push(update);
                let outcome = Outcome::settled(send_message(&in_flight.tx, update));
                if let Outcome::Enqueued = outcome {
                    self.enqueued = Ghost(log);
                }
                outcome
            },
            None => Outcome::Unparsable,
        }
    }

    /// Handles, in one go, a request whose secret header has been checked for
    /// shape: lets it in or turns it away as [`screen`](Self::screen) does, and
    /// deals with the body of a request that is let in as
    /// [`deliver`](Self::deliver) does.
    ///
    /// `parsed` is the update that the body holds, if it holds one.
    pub fn telegram_request(
        &mut self,
        secret_header: XTelegramBotApiSecretToken,
        parsed: Option<U>,
    ) -> (outcome: Outcome<U>)
        ensures
            (final(self)@, outcome) == old(self)@.request(
                secret_header.bytes(),
                parsed,
                !(outcome is ReceiverGone),
            ),
    {
        match self.screen(secret_header) {
            Ok(in_flight) => self.deliver(in_flight, parsed),
            Err(outcome) => outcome,
        }
    }

    /// Handles a request from its raw secret header: checks the header's
    /// shape, then goes on as [`telegram_request`](Self::telegram_request) does.
    ///
    /// A malformed header is [`Outcome::Malformed`] whatever the state of the
    /// endpoint and whatever secret is configured.
    pub fn handle(&mut self, header: Option<&[u8]>, parsed: Option<U>) -> (outcome: Outcome<U>)
        ensures
            (final(self)@, outcome) == old(self)@.request(
                bytes_of(header),
                parsed,
                !(outcome is ReceiverGone),
            ),
    {
        match XTelegramBotApiSecretToken::from_request_parts(header) {
            Ok(secret_header) => self.telegram_request(secret_header, parsed),
            Err(_) => Outcome::Malformed,
        }
    }
}

} // verus!
