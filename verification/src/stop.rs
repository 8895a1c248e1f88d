//! The one-shot stop signal that request handling and the consumer share.
//!
//! The signal has two states and one transition: it starts running and
//! [`stop`](StopSignal::stop) moves it to stopped, for good. Whoever shares the
//! signal between tasks hands out the right to call `stop` as a token and the
//! right to read it as a flag; tasks that wait for the stop are woken by the
//! one call of `stop` that makes the transition.

use vstd::prelude::*;

verus! {

/// What a call of [`StopSignal::stop`] did.
#[derive(Clone, Copy, Debug, PartialEq, Eq, Structural)]
pub enum StopEffect {
    /// The call made the transition to stopped: waiters are to be woken now.
    Stopped,
    /// The signal was stopped before: nothing is left to do.
    AlreadyStopped,
}

/// A stop signal: running until the first `stop`, stopped ever after.
#[derive(Debug)]
pub struct StopSignal {
    stopped: bool,
}

impl StopSignal {
    /// Whether `stop` has been called.
    pub closed spec fn stopped(&self) -> bool {
        self.stopped
    }

    /// The signal after a call of `stop`.
    pub closed spec fn after_stop(self) -> Self {
        StopSignal { stopped: true }
    }

    /// A signal that is running.
    pub fn new() -> (signal: Self)
        ensures
            !signal.stopped(),
    {
        StopSignal { stopped: false }
    }

    /// Stops the signal and says whether this call made the transition.
    pub fn stop(&mut self) -> (effect: StopEffect)
        ensures
            *final(self) == old(self).after_stop(),
            final(self).stopped(),
            effect == if old(self).stopped() {
                StopEffect::AlreadyStopped
            } else {
                StopEffect::Stopped
            },
    {
        if self.stopped {
            StopEffect::AlreadyStopped
        } else {
            self.stopped = true;
            StopEffect::Stopped
        }
    }

    /// Whether the signal is stopped.
    pub fn is_stopped(&self) -> (b: bool)
        ensures
            b == self.stopped(),
    {
        self.stopped
    }

    /// Stopping is monotonic and idempotent: a stopped signal is stopped, it
    /// is unchanged by a further `stop`, and so on any number of further calls
    /// exactly one call ever reports the transition.
    pub proof fn lemma_stop_is_final(self)
        ensures
            self.after_stop().stopped(),
            self.after_stop().after_stop() == self.after_stop(),
            self.stopped() ==> self.after_stop() == self,
    {
    }
}

} // verus!
