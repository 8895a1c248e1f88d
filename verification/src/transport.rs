//! Where the endpoint listens, and the life of the server that listens there.
//!
//! Binding is planned here and carried out by the caller: a network address
//! is bound directly, a local socket after the stale socket file is removed
//! and the directories above it are made. The server then goes through its
//! phases one event at a time; [`ServerPhase::step`] says what each event
//! calls for.

use vstd::prelude::*;

verus! {

/// An IP address.
#[derive(Clone, Copy, Debug, PartialEq, Eq, Structural)]
pub enum IpAddress {
    /// The four bytes of an IPv4 address.
    V4(u8, u8, u8, u8),
    /// The eight groups of an IPv6 address.
    V6(u16, u16, u16, u16, u16, u16, u16, u16),
}

/// A network address: an IP address and a port.
#[derive(Clone, Copy, Debug, PartialEq, Eq, Structural)]
pub struct SocketAddress {
    /// The address.
    pub ip: IpAddress,
    /// The port.
    pub port: u16,
}

/// Where the endpoint listens.
#[derive(Clone, Debug)]
pub enum Location {
    /// On a network address.
    Ip(SocketAddress),
    /// On a local socket at this path in the file system.
    Path(String),
}

/// One thing to do in order to listen at a [`Location`].
#[derive(Clone, Copy, Debug, PartialEq, Eq, Structural)]
pub enum BindStep {
    /// Remove the file at the socket's path, left there by an earlier run.
    RemoveStale,
    /// Make the directories above the socket's path that are missing.
    CreateParentDirs,
    /// Bind the local socket.
    BindSocket,
    /// Bind the network address.
    BindAddress,
}

impl BindStep {
    /// Whether binding goes on when the step fails. Only the removal of a
    /// stale file may fail: most of the time there is none.
    pub open spec fn may_fail(self) -> bool {
        self == BindStep::RemoveStale
    }

    /// Whether binding goes on when the step fails: see [`may_fail`](Self::may_fail).
    pub fn failure_is_ignored(&self) -> (b: bool)
        ensures
            b == self.may_fail(),
    {
        match self {
            BindStep::RemoveStale => true,
            _ => false,
        }
    }
}

impl Location {
    /// The steps that binding at this location takes, in order.
    pub open spec fn steps(self) -> Seq<BindStep> {
        match self {
            Location::Ip(_) => seq![BindStep::BindAddress],
            Location::Path(_) => seq![
                BindStep::RemoveStale,
                BindStep::CreateParentDirs,
                BindStep::BindSocket,
            ],
        }
    }

    /// The steps that binding at this location takes, in order.
    pub fn bind_plan(&self) -> (plan: Vec<BindStep>)
        ensures
            plan@ == self.steps(),
    {
        let mut plan: Vec<BindStep> = Vec::new();
        match self {
            Location::Ip(_) => {
                plan.push(BindStep::BindAddress);
            },
            Location::Path(_) => {
                plan.push(BindStep::RemoveStale);
                plan.push(BindStep::CreateParentDirs);
                plan.push(BindStep::BindSocket);
            },
        }
        proof {
            assert(plan@ =~= self.steps());
        }
        plan
    }
}

/// The phases of a server.
#[derive(Clone, Copy, Debug, PartialEq, Eq, Structural)]
pub enum ServerPhase {
    /// Not listening yet.
    Unbound,
    /// Listening and taking requests.
    Serving,
    /// Stopped taking connections; the requests in flight run to their end.
    Draining,
    /// Done, after a stop.
    Stopped,
    /// Done, after a fault.
    Failed,
}

/// What can happen to a server.
#[derive(Clone, Copy, Debug, PartialEq, Eq, Structural)]
pub enum ServerEvent {
    /// Binding succeeded.
    Bound,
    /// The stop signal was given.
    StopRequested,
    /// The last request in flight has run to its end.
    Drained,
    /// Binding or accepting failed for good.
    Fault,
}

/// What an event calls for.
#[derive(Clone, Copy, Debug, PartialEq, Eq, Structural)]
pub enum ServerAction {
    /// Nothing.
    Nothing,
    /// Start taking requests.
    Serve,
    /// Stop taking connections and let the requests in flight run to their end.
    Drain,
    /// End the server's task.
    Finish,
    /// Give the stop signal, so that nobody waits for this server for ever,
    /// and end the server's task as failed. The server is not started again.
    StopAndFail,
}

impl ServerPhase {
    /// The phase after `event`, and what the event calls for.
    ///
    /// A fault ends a server that is not done yet, whatever its phase. The
    /// other events move the server on where they are due and change nothing
    /// where they are not.
    pub open spec fn next(self, event: ServerEvent) -> (ServerPhase, ServerAction) {
        match (self, event) {
            (ServerPhase::Stopped, _) => (self, ServerAction::Nothing),
            (ServerPhase::Failed, _) => (self, ServerAction::Nothing),
            (_, ServerEvent::Fault) => (ServerPhase::Failed, ServerAction::StopAndFail),
            (ServerPhase::Unbound, ServerEvent::Bound) => (ServerPhase::Serving, ServerAction::Serve),
            (ServerPhase::Serving, ServerEvent::StopRequested) => (ServerPhase::Draining, ServerAction::Drain),
            (ServerPhase::Draining, ServerEvent::Drained) => (ServerPhase::Stopped, ServerAction::Finish),
            _ => (self, ServerAction::Nothing),
        }
    }

    /// Whether the server is done.
    pub open spec fn is_done(self) -> bool {
        self == ServerPhase::Stopped || self == ServerPhase::Failed
    }

    /// A server that is done stays done: no event moves it or calls for
    /// anything. A fault ends a server that is not done, and is what gives the
    /// stop signal; so the signal is given at most once for a server, and a
    /// server that failed is not started again.
    pub proof fn lemma_done_is_final(self, event: ServerEvent, later: ServerEvent)
        ensures
            self.is_done() ==> self.next(event) == (self, ServerAction::Nothing),
            !self.is_done() ==> self.next(ServerEvent::Fault) == (
                ServerPhase::Failed,
                ServerAction::StopAndFail,
            ),
            self.next(event).1 == ServerAction::StopAndFail ==> event == ServerEvent::Fault
                && self.next(event).0 == ServerPhase::Failed,
            self.next(event).0.is_done() ==> self.next(event).0.next(later) == (
                self.next(event).0,
                ServerAction::Nothing,
            ),
    {
    }

    /// The phase after `event`, and what the event calls for: see [`next`](Self::next).
    pub fn step(self, event: ServerEvent) -> (r: (ServerPhase, ServerAction))
        ensures
            r == self.next(event),
    {
        match (self, event) {
            (ServerPhase::Stopped, _) => (self, ServerAction::Nothing),
            (ServerPhase::Failed, _) => (self, ServerAction::Nothing),
            (_, ServerEvent::Fault) => (ServerPhase::Failed, ServerAction::StopAndFail),
            (ServerPhase::Unbound, ServerEvent::Bound) => (ServerPhase::Serving, ServerAction::Serve),
            (ServerPhase::Serving, ServerEvent::StopRequested) => (ServerPhase::Draining, ServerAction::Drain),
            (ServerPhase::Draining, ServerEvent::Drained) => (ServerPhase::Stopped, ServerAction::Finish),
            _ => (self, ServerAction::Nothing),
        }
    }
}

} // verus!
