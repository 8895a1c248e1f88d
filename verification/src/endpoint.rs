//! An endpoint as contracts see it, and what holds of it.
//!
//! [`Endpoint`] is the state of an endpoint as far as requests can tell: the
//! secret it asks for, whether it still holds its producer, whether it was
//! stopped, and what it has put on the queue. [`Endpoint::screen`],
//! [`Endpoint::deliver`] and [`Endpoint::request`] say what a request does to
//! it and how the request is answered; the lemmas say what follows for every
//! request and for every run of requests.

use crate::secret::{verdict, well_formed, Verdict};
use vstd::prelude::*;

verus! {

/// The statuses that a request is answered with.
#[derive(Clone, Copy, Debug, PartialEq, Eq, Structural)]
pub enum StatusCode {
    /// 200: the update was taken, or the body can never be parsed.
    Success,
    /// 400: the secret header is malformed.
    BadRequest,
    /// 401: the secret header is not the configured secret.
    Unauthorized,
    /// 503: the endpoint no longer takes updates.
    ServiceUnavailable,
}

impl StatusCode {
    /// The status as a number.
    pub open spec fn code(self) -> u16 {
        match self {
            StatusCode::Success => 200,
            StatusCode::BadRequest => 400,
            StatusCode::Unauthorized => 401,
            StatusCode::ServiceUnavailable => 503,
        }
    }

    /// The status as a number.
    pub fn as_u16(&self) -> (n: u16)
        ensures
            n == self.code(),
    {
        match self {
            StatusCode::Success => 200,
            StatusCode::BadRequest => 400,
            StatusCode::Unauthorized => 401,
            StatusCode::ServiceUnavailable => 503,
        }
    }
}

/// What became of one request.
#[derive(Debug, PartialEq, Eq)]
pub enum Outcome<U> {
    /// The secret header is malformed.
    Malformed,
    /// The secret header is not the configured secret.
    Unauthorized,
    /// The endpoint had given up its producer before the request came.
    Closed,
    /// The endpoint was stopped: the request made it give up its producer.
    Stopped,
    /// The update is on the queue.
    Enqueued,
    /// The body is not an update: the caller logs it, and the sender is told
    /// that all is well so that it does not send the same body again.
    Unparsable,
    /// The queue refused the update because its consumer is gone. This breaks
    /// what the endpoint relies on; the update comes back with it.
    ReceiverGone(U),
}

impl<U> Outcome<U> {
    /// The status to answer with. A refused update has none: the request
    /// cannot be answered.
    pub open spec fn status(self) -> Option<StatusCode> {
        match self {
            Outcome::Malformed => Some(StatusCode::BadRequest),
            Outcome::Unauthorized => Some(StatusCode::Unauthorized),
            Outcome::Closed => Some(StatusCode::ServiceUnavailable),
            Outcome::Stopped => Some(StatusCode::ServiceUnavailable),
            Outcome::Enqueued => Some(StatusCode::Success),
            Outcome::Unparsable => Some(StatusCode::Success),
            Outcome::ReceiverGone(_) => None,
        }
    }

    /// The status to answer with: see [`status`](Self::status).
    pub fn status_code(&self) -> (s: Option<StatusCode>)
        ensures
            s == self.status(),
    {
        match self {
            Outcome::Malformed => Some(StatusCode::BadRequest),
            Outcome::Unauthorized => Some(StatusCode::Unauthorized),
            Outcome::Closed => Some(StatusCode::ServiceUnavailable),
            Outcome::Stopped => Some(StatusCode::ServiceUnavailable),
            Outcome::Enqueued => Some(StatusCode::Success),
            Outcome::Unparsable => Some(StatusCode::Success),
            Outcome::ReceiverGone(_) => None,
        }
    }

    /// What the queue's answer to an update makes of the request.
    pub fn settled(sent: Result<(), U>) -> (outcome: Self)
        ensures
            outcome == match sent {
                Ok(()) => Outcome::Enqueued,
                Err(update) => Outcome::ReceiverGone(update),
            },
    {
        match sent {
            Ok(()) => Outcome::Enqueued,
            Err(update) => Outcome::ReceiverGone(update),
        }
    }
}

/// An endpoint as contracts see it.
pub struct Endpoint<U> {
    /// The configured secret.
    pub secret: Option<Seq<u8>>,
    /// Whether the endpoint still holds its producer.
    pub open: bool,
    /// Whether the endpoint has been stopped.
    pub stopped: bool,
    /// The updates that the endpoint has put on the queue, oldest first.
    pub enqueued: Seq<U>,
}

impl<U> Endpoint<U> {
    /// The endpoint after `stop`.
    pub open spec fn stop(self) -> Self {
        Endpoint { stopped: true, ..self }
    }

    /// The endpoint after `close`.
    pub open spec fn close(self) -> Self {
        Endpoint { open: false, ..self }
    }

    /// The endpoint after it has looked at a request's secret header, and how
    /// the request is turned away: `None` where it is let in.
    ///
    /// The secret is looked at first. A request that carries it is turned
    /// away if the endpoint has given up its producer, and also if the
    /// endpoint was stopped, in which case the endpoint gives up its producer
    /// now. Nothing else changes the endpoint.
    pub open spec fn screen(self, header: Option<Seq<u8>>) -> (Self, Option<Outcome<U>>) {
        match verdict(header, self.secret) {
            Verdict::Malformed => (self, Some(Outcome::Malformed)),
            Verdict::Mismatch => (self, Some(Outcome::Unauthorized)),
            Verdict::Accepted => if !self.open {
                (self, Some(Outcome::Closed))
            } else if self.stopped {
                (self.close(), Some(Outcome::Stopped))
            } else {
                (self, None)
            },
        }
    }

    /// The endpoint after a request that was let in has handed over its body,
    /// and what became of the request.
    ///
    /// `parsed` is the update that the body holds, if it holds one, and
    /// `taken` says whether the queue takes an update that is offered to it.
    /// Whether the endpoint was stopped or closed in the meantime plays no
    /// part: a request that was let in runs to its end.
    pub open spec fn deliver(self, parsed: Option<U>, taken: bool) -> (Self, Outcome<U>) {
        match parsed {
            None => (self, Outcome::Unparsable),
            Some(update) => if taken {
                (Endpoint { enqueued: self.enqueued.push(update), ..self }, Outcome::Enqueued)
            } else {
                (self, Outcome::ReceiverGone(update))
            },
        }
    }

    /// The endpoint after a request that is handled in one go, and what
    /// became of the request: the request is turned away as
    /// [`screen`](Self::screen) says, or let in and dealt with as
    /// [`deliver`](Self::deliver) says.
    pub open spec fn request(
        self,
        header: Option<Seq<u8>>,
        parsed: Option<U>,
        taken: bool,
    ) -> (Self, Outcome<U>) {
        match self.screen(header) {
            (after, Some(outcome)) => (after, outcome),
            (after, None) => after.deliver(parsed, taken),
        }
    }
}

/// One request as contracts see it: its secret header, the update that its
/// body holds if it holds one, and whether the queue takes an update that is
/// offered to it.
pub struct Call<U> {
    /// The secret header, if the request has one.
    pub header: Option<Seq<u8>>,
    /// The update that the body holds, if it holds one.
    pub parsed: Option<U>,
    /// Whether the queue takes an update that is offered to it.
    pub taken: bool,
}

impl<U> Endpoint<U> {
    /// The endpoint after the requests of `calls`, handled in order.
    pub open spec fn after_all(self, calls: Seq<Call<U>>) -> Self
        decreases calls.len(),
    {
        if calls.len() == 0 {
            self
        } else {
            let last = calls.last();
            self.after_all(calls.drop_last()).request(last.header, last.parsed, last.taken).0
        }
    }

    /// What became of the request at `index` of `calls`, handled in order.
    pub open spec fn outcome_at(self, calls: Seq<Call<U>>, index: int) -> Outcome<U>
        recommends
            0 <= index < calls.len(),
    {
        let call = calls[index];
        self.after_all(calls.take(index)).request(call.header, call.parsed, call.taken).1
    }

    /// The secret header alone decides whether a request is let in. It is
    /// answered with 400 exactly when its header is malformed, whatever secret
    /// is configured; with 401 exactly when its header is well-formed, or
    /// absent, and differs from what is configured; and it is let in exactly
    /// when its header is well-formed, or absent, and is what is configured.
    /// A request that is not let in leaves the endpoint as it was.
    pub proof fn lemma_secret_decides(
        self,
        header: Option<Seq<u8>>,
        parsed: Option<U>,
        taken: bool,
    )
        ensures
            ({
                let (after, outcome) = self.request(header, parsed, taken);
                let shaped = header matches Some(bytes) ==> well_formed(bytes);
                &&& outcome.status() == Some(StatusCode::BadRequest) <==> !shaped
                &&& outcome.status() == Some(StatusCode::Unauthorized) <==> shaped && header
                    != self.secret
                &&& outcome is Malformed <==> !shaped
                &&& outcome is Unauthorized <==> shaped && header != self.secret
                &&& !(outcome is Malformed) && !(outcome is Unauthorized) <==> shaped && header
                    == self.secret
                &&& outcome is Malformed || outcome is Unauthorized ==> after == self
            }),
    {
    }

    /// A stopped endpoint takes no update: whatever the request, it is not
    /// let in, nothing is put on the queue, the answer is not 200, and the
    /// endpoint stays stopped. A request that carries the configured secret
    /// is answered with 503.
    pub proof fn lemma_stopped_takes_nothing(
        self,
        header: Option<Seq<u8>>,
        parsed: Option<U>,
        taken: bool,
    )
        requires
            self.stopped,
        ensures
            ({
                let (after, outcome) = self.request(header, parsed, taken);
                &&& self.screen(header) == (after, Some(outcome))
                &&& after.stopped
                &&& after.enqueued == self.enqueued
                &&& after.secret == self.secret
                &&& !(outcome is Enqueued)
                &&& outcome.status() != Some(StatusCode::Success)
                &&& verdict(header, self.secret) == Verdict::Accepted ==> outcome.status() == Some(
                    StatusCode::ServiceUnavailable,
                )
            }),
    {
    }

    /// Once an endpoint is stopped, that is final. However many requests
    /// follow, and whatever they carry, the endpoint stays stopped, its queue
    /// gets nothing more, and none of the requests is answered with 200: one
    /// that carries the configured secret is answered with 503.
    pub proof fn lemma_stop_is_final(self, calls: Seq<Call<U>>)
        requires
            self.stopped,
        ensures
            self.after_all(calls).stopped,
            self.after_all(calls).enqueued == self.enqueued,
            self.after_all(calls).secret == self.secret,
            forall|i: int|
                0 <= i < calls.len() ==> {
                    let outcome = #[trigger] self.outcome_at(calls, i);
                    &&& !(outcome is Enqueued)
                    &&& outcome.status() != Some(StatusCode::Success)
                    &&& verdict(calls[i].header, self.secret) == Verdict::Accepted
                        ==> outcome.status() == Some(StatusCode::ServiceUnavailable)
                },
        decreases calls.len(),
    {
        if calls.len() > 0 {
            self.lemma_stop_is_final(calls.drop_last());
        }
        assert forall|i: int| 0 <= i < calls.len() implies {
            let outcome = #[trigger] self.outcome_at(calls, i);
            &&& !(outcome is Enqueued)
            &&& outcome.status() != Some(StatusCode::Success)
            &&& verdict(calls[i].header, self.secret) == Verdict::Accepted ==> outcome.status()
                == Some(StatusCode::ServiceUnavailable)
        } by {
            let before = calls.take(i);
            self.lemma_stop_is_final(before);
            self.after_all(before).lemma_stopped_takes_nothing(
                calls[i].header,
                calls[i].parsed,
                calls[i].taken,
            );
        }
    }

    /// An endpoint that has given up its producer never gets it back, and
    /// takes no update from then on.
    pub proof fn lemma_closed_stays_closed(self, calls: Seq<Call<U>>)
        requires
            !self.open,
        ensures
            self.after_all(calls) == self,
            forall|i: int|
                0 <= i < calls.len() ==> {
                    let outcome = #[trigger] self.outcome_at(calls, i);
                    &&& !(outcome is Enqueued)
                    &&& outcome.status() != Some(StatusCode::Success)
                },
        decreases calls.len(),
    {
        if calls.len() > 0 {
            self.lemma_closed_stays_closed(calls.drop_last());
        }
        assert forall|i: int| 0 <= i < calls.len() implies {
            let outcome = #[trigger] self.outcome_at(calls, i);
            &&& !(outcome is Enqueued)
            &&& outcome.status() != Some(StatusCode::Success)
        } by {
            self.lemma_closed_stays_closed(calls.take(i));
        }
    }

    /// A request that is let in by an open, running endpoint and whose body
    /// holds an update puts exactly that update on the queue, once, behind all
    /// that is on it, and is answered with 200, provided that the queue takes
    /// the update.
    pub proof fn lemma_update_is_enqueued_once(
        self,
        header: Option<Seq<u8>>,
        update: U,
    )
        requires
            verdict(header, self.secret) == Verdict::Accepted,
            self.open,
            !self.stopped,
        ensures
            ({
                let (after, outcome) = self.request(header, Some(update), true);
                &&& outcome == Outcome::<U>::Enqueued
                &&& outcome.status() == Some(StatusCode::Success)
                &&& after.enqueued == self.enqueued.push(update)
                &&& after.enqueued.len() == self.enqueued.len() + 1
                &&& after.enqueued.last() == update
                &&& after.enqueued.drop_last() == self.enqueued
                &&& after.open && !after.stopped
            }),
    {
        let after = self.request(header, Some(update), true).0;
        assert(after.enqueued.drop_last() =~= self.enqueued);
    }

    /// A request whose body holds no update puts nothing on the queue,
    /// whatever else it carries. Where an open, running endpoint lets it in,
    /// it is answered with 200 all the same.
    pub proof fn lemma_unparsable_adds_nothing(self, header: Option<Seq<u8>>, taken: bool)
        ensures
            ({
                let (after, outcome) = self.request(header, None, taken);
                &&& after.enqueued == self.enqueued
                &&& !(outcome is Enqueued)
                &&& verdict(header, self.secret) == Verdict::Accepted && self.open && !self.stopped
                    ==> outcome == Outcome::<U>::Unparsable && outcome.status() == Some(
                    StatusCode::Success,
                ) && after == self
            }),
    {
    }

    /// No request takes anything off the queue or reorders it: what was on it
    /// stays, in place, and at most one update is added at the end. One is
    /// added exactly when the request is answered as enqueued.
    pub proof fn lemma_queue_only_grows(
        self,
        header: Option<Seq<u8>>,
        parsed: Option<U>,
        taken: bool,
    )
        ensures
            ({
                let (after, outcome) = self.request(header, parsed, taken);
                &&& self.enqueued.is_prefix_of(after.enqueued)
                &&& after.enqueued.len() == self.enqueued.len() + if outcome is Enqueued {
                    1int
                } else {
                    0int
                }
                &&& after.stopped == self.stopped
                &&& after.secret == self.secret
                &&& after.open ==> self.open
            }),
    {
        let after = self.request(header, parsed, taken).0;
        assert(self.enqueued.is_prefix_of(after.enqueued)) by {
            assert(self.enqueued =~= after.enqueued.subrange(0, self.enqueued.len() as int));
        }
    }
}

impl<U> Endpoint<U> {
    /// Where on the queue the update of the request at `index` of `calls`
    /// goes, if the request puts one there: behind all that the endpoint has
    /// enqueued by then.
    pub open spec fn place_of(self, calls: Seq<Call<U>>, index: int) -> int
        recommends
            0 <= index < calls.len(),
    {
        self.after_all(calls.take(index)).enqueued.len() as int
    }

    /// However a run of requests goes on, what the endpoint had enqueued
    /// after the first `k` of them stays on the queue, in place.
    pub proof fn lemma_queue_grows_along_run(self, calls: Seq<Call<U>>, k: int)
        requires
            0 <= k <= calls.len(),
        ensures
            self.after_all(calls.take(k)).enqueued.is_prefix_of(self.after_all(calls).enqueued),
        decreases calls.len(),
    {
        let end = self.after_all(calls).enqueued;
        if k == calls.len() {
            assert(calls.take(k) =~= calls);
            assert(end =~= end.subrange(0, end.len() as int));
        } else {
            let init = calls.drop_last();
            let last = calls.last();
            let mid = self.after_all(init).enqueued;
            let early = self.after_all(init.take(k)).enqueued;
            self.lemma_queue_grows_along_run(init, k);
            assert(init.take(k) =~= calls.take(k));
            self.after_all(init).lemma_queue_only_grows(last.header, last.parsed, last.taken);
            assert(early =~= end.subrange(0, early.len() as int)) by {
                assert(early =~= mid.subrange(0, early.len() as int));
                assert(mid =~= end.subrange(0, mid.len() as int));
            }
        }
    }

    /// Updates reach the queue in the order in which their requests were
    /// handled. The update of a request that was answered as enqueued is on
    /// the queue, at its place, at the end of any run that the request is
    /// part of; and of two such requests the earlier one's update comes first.
    pub proof fn lemma_updates_keep_their_order(self, calls: Seq<Call<U>>, i: int, j: int)
        requires
            0 <= i <= j < calls.len(),
            self.outcome_at(calls, i) is Enqueued,
        ensures
            calls[i].parsed is Some,
            0 <= self.place_of(calls, i) < self.after_all(calls).enqueued.len(),
            self.after_all(calls).enqueued[self.place_of(calls, i)] == calls[i].parsed->0,
            i < j ==> self.place_of(calls, i) < self.place_of(calls, j),
    {
        let end = self.after_all(calls).enqueued;
        let before = self.after_all(calls.take(i)).enqueued;
        let upto = calls.take(i + 1);
        assert(upto.drop_last() =~= calls.take(i));
        assert(upto.last() == calls[i]);
        let after = self.after_all(upto).enqueued;
        assert(after == before.push(calls[i].parsed->0));
        self.lemma_queue_grows_along_run(calls, i + 1);
        assert(end[before.len() as int] == after[before.len() as int]) by {
            assert(after =~= end.subrange(0, after.len() as int));
        }
        if i < j {
            let run = calls.take(j);
            self.lemma_queue_grows_along_run(run, i + 1);
            assert(run.take(i + 1) =~= upto);
        }
    }
}

impl<U> Endpoint<U> {
    /// A stop does not reach a request that has been let in. Such a request
    /// still puts its update on the queue, provided that the queue takes it,
    /// and is answered with 200; the next request that carries the configured
    /// secret is answered with 503 and puts nothing there.
    pub proof fn lemma_request_in_flight_is_delivered(
        self,
        header: Option<Seq<u8>>,
        update: U,
        next_header: Option<Seq<u8>>,
        next_parsed: Option<U>,
        next_taken: bool,
    )
        requires
            self.screen(header).1 is None,
            verdict(next_header, self.secret) == Verdict::Accepted,
        ensures
            ({
                let let_in = self.screen(header).0;
                let (after, outcome) = let_in.stop().deliver(Some(update), true);
                let (last, next) = after.request(next_header, next_parsed, next_taken);
                &&& let_in == self
                &&& outcome == Outcome::<U>::Enqueued
                &&& outcome.status() == Some(StatusCode::Success)
                &&& after.enqueued == self.enqueued.push(update)
                &&& next.status() == Some(StatusCode::ServiceUnavailable)
                &&& last.enqueued == after.enqueued
            }),
    {
    }
}

} // verus!
