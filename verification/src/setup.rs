//! Registration of the endpoint with the sender of updates, and its removal.
//!
//! The endpoint is registered before any request is served; a failure there
//! is the failure of the whole start. Once the stop signal is given the
//! registration is removed, once; a failure there is logged and goes no
//! further, since nobody is left to hear of it. The calls themselves are the
//! caller's: [`SetupPhase::step`] says which one each event calls for.

use vstd::prelude::*;

verus! {

/// The phases of an endpoint's registration.
#[derive(Clone, Copy, Debug, PartialEq, Eq, Structural)]
pub enum SetupPhase {
    /// Nothing has been asked of the other side yet.
    Idle,
    /// Registration has been asked for.
    Registering,
    /// The endpoint is registered and requests are served.
    Active,
    /// Removal of the registration has been asked for.
    Deregistering,
    /// The registration has been dealt with after a stop.
    Finished,
    /// Registration failed: nothing was ever served.
    Failed,
}

/// What can happen to a registration.
#[derive(Clone, Copy, Debug, PartialEq, Eq, Structural)]
pub enum SetupEvent {
    /// The caller wants the endpoint to start.
    Start,
    /// The other side has registered the endpoint.
    Registered,
    /// The other side has refused to register the endpoint, or could not be reached.
    RegisterFailed,
    /// The stop signal was given.
    Stopped,
    /// The other side has removed the registration.
    Deregistered,
    /// The other side has not removed the registration.
    DeregisterFailed,
}

/// What an event calls for.
#[derive(Clone, Copy, Debug, PartialEq, Eq, Structural)]
pub enum SetupAction {
    /// Nothing.
    Nothing,
    /// Ask the other side to register the endpoint's address and secret.
    Register,
    /// Hand the listener to the caller: requests are served from now on.
    Serve,
    /// Hand the failure to the caller: nothing is served.
    Fail,
    /// Ask the other side to remove the registration.
    Deregister,
    /// Log that the registration could not be removed.
    LogFailure,
}

impl SetupPhase {
    /// The phase after `event`, and what the event calls for. An event that
    /// is not due in a phase changes nothing.
    pub open spec fn next(self, event: SetupEvent) -> (SetupPhase, SetupAction) {
        match (self, event) {
            (SetupPhase::Idle, SetupEvent::Start) => (SetupPhase::Registering, SetupAction::Register),
            (SetupPhase::Registering, SetupEvent::Registered) => (SetupPhase::Active, SetupAction::Serve),
            (SetupPhase::Registering, SetupEvent::RegisterFailed) => (SetupPhase::Failed, SetupAction::Fail),
            (SetupPhase::Active, SetupEvent::Stopped) => (SetupPhase::Deregistering, SetupAction::Deregister),
            (SetupPhase::Deregistering, SetupEvent::Deregistered) => (SetupPhase::Finished, SetupAction::Nothing),
            (SetupPhase::Deregistering, SetupEvent::DeregisterFailed) => (SetupPhase::Finished, SetupAction::LogFailure),
            _ => (self, SetupAction::Nothing),
        }
    }

    /// The phase after `event`, and what the event calls for: see [`next`](Self::next).
    pub fn step(self, event: SetupEvent) -> (r: (SetupPhase, SetupAction))
        ensures
            r == self.next(event),
    {
        match (self, event) {
            (SetupPhase::Idle, SetupEvent::Start) => (SetupPhase::Registering, SetupAction::Register),
            (SetupPhase::Registering, SetupEvent::Registered) => (SetupPhase::Active, SetupAction::Serve),
            (SetupPhase::Registering, SetupEvent::RegisterFailed) => (SetupPhase::Failed, SetupAction::Fail),
            (SetupPhase::Active, SetupEvent::Stopped) => (SetupPhase::Deregistering, SetupAction::Deregister),
            (SetupPhase::Deregistering, SetupEvent::Deregistered) => (SetupPhase::Finished, SetupAction::Nothing),
            (SetupPhase::Deregistering, SetupEvent::DeregisterFailed) => (SetupPhase::Finished, SetupAction::LogFailure),
            _ => (self, SetupAction::Nothing),
        }
    }

    /// The phase after the events of `events`, in order.
    pub open spec fn after(self, events: Seq<SetupEvent>) -> SetupPhase
        decreases events.len(),
    {
        if events.len() == 0 {
            self
        } else {
            self.next(events[0]).0.after(events.skip(1))
        }
    }

    /// How many of the events of `events`, met in order from this phase, call
    /// for `action`.
    pub open spec fn count(self, events: Seq<SetupEvent>, action: SetupAction) -> nat
        decreases events.len(),
    {
        if events.len() == 0 {
            0
        } else {
            let (phase, called) = self.next(events[0]);
            let rest = phase.count(events.skip(1), action);
            if called == action {
                rest + 1
            } else {
                rest
            }
        }
    }

    /// Whatever happens, and in whatever order, removal of the registration
    /// is asked for at most once, and never once it has been asked for.
    pub proof fn lemma_deregisters_at_most_once(self, events: Seq<SetupEvent>)
        ensures
            self.count(events, SetupAction::Deregister) <= 1,
            self == SetupPhase::Deregistering || self == SetupPhase::Finished || self
                == SetupPhase::Failed ==> self.count(events, SetupAction::Deregister) == 0,
        decreases events.len(),
    {
        if events.len() > 0 {
            self.next(events[0]).0.lemma_deregisters_at_most_once(events.skip(1));
        }
    }

    /// Registration is asked for at most once, and requests are served only
    /// after it has succeeded: a start that failed serves nothing, ever.
    pub proof fn lemma_serves_only_once_registered(self, events: Seq<SetupEvent>)
        ensures
            self.count(events, SetupAction::Register) <= 1,
            self.count(events, SetupAction::Serve) <= 1,
            self != SetupPhase::Idle ==> self.count(events, SetupAction::Register) == 0,
            self != SetupPhase::Idle && self != SetupPhase::Registering ==> self.count(
                events,
                SetupAction::Serve,
            ) == 0,
            self == SetupPhase::Failed ==> self.after(events) == SetupPhase::Failed,
        decreases events.len(),
    {
        if events.len() > 0 {
            self.next(events[0]).0.lemma_serves_only_once_registered(events.skip(1));
        }
    }
}

} // verus!
