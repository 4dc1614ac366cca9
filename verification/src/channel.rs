use vstd::prelude::*;

use crate::correlation::CorrelationId;

verus! {

/// The correlated intent channel: a single-slot, latest-value-wins conduit
/// between the producer side of a dispatcher and its throttled consumer.
///
/// `pending` holds the one message the consumer has not accepted yet, if any;
/// each `send` overwrites it, so bursts collapse to the most recent message.
/// A message of `None` marks a reset (issued on confirm and cancel) and must
/// submit nothing when delivered. `last_emit` is the time, in milliseconds,
/// at which the consumer last accepted a message; acceptances are spaced at
/// least `interval` milliseconds apart.
#[derive(Debug)]
#[verifier::ext_equal]
pub struct IntentChannel<T> {
    pub pending: Option<Option<(CorrelationId, T)>>,
    pub interval: u64,
    pub last_emit: Option<u64>,
}

impl<T> IntentChannel<T> {
    /// The channel a fresh dispatcher starts with: the reset message is
    /// already pending, so the consumer's first acceptance delivers a no-op
    /// and opens the first throttle window.
    pub open spec fn spec_new(interval: u64) -> Self {
        IntentChannel { pending: Some(None), interval, last_emit: None }
    }

    pub fn new(interval: u64) -> (channel: Self)
        ensures
            channel == Self::spec_new(interval),
    {
        IntentChannel { pending: Some(None), interval, last_emit: None }
    }

    /// The state after a send: the slot is overwritten whether or not the
    /// previous message was ever accepted.
    pub open spec fn spec_send(self, message: Option<(CorrelationId, T)>) -> Self {
        IntentChannel { pending: Some(message), ..self }
    }

    /// Non-blocking store from the producer side; never queues, never fails.
    pub fn send(&mut self, message: Option<(CorrelationId, T)>)
        ensures
            *final(self) == old(self).spec_send(message),
    {
        self.pending = Some(message);
    }

    /// Whether the throttle window that opened at the last acceptance has
    /// closed by time `now`.
    pub open spec fn spec_ready(self, now: u64) -> bool {
        match self.last_emit {
            None => true,
            Some(t) => now >= t + self.interval,
        }
    }

    /// The state and delivery of an acceptance attempt at time `now`.
    pub open spec fn spec_accept(self, now: u64) -> (Self, Option<Option<(CorrelationId, T)>>) {
        if self.spec_ready(now) && self.pending is Some {
            (
                IntentChannel { pending: None, last_emit: Some(now), ..self },
                self.pending,
            )
        } else {
            (self, None)
        }
    }

    /// The consumer's attempt to take a message at time `now`: delivers the
    /// pending message only when one exists and the throttle window has
    /// closed, and then opens a new window at `now`. Returns `None` when
    /// nothing was delivered.
    pub fn accept(&mut self, now: u64) -> (message: Option<Option<(CorrelationId, T)>>)
        ensures
            (*final(self), message) == old(self).spec_accept(now),
    {
        let ready = match self.last_emit {
            None => true,
            Some(t) => now >= t && now - t >= self.interval,
        };
        if ready && self.pending.is_some() {
            self.last_emit = Some(now);
            self.pending.take()
        } else {
            None
        }
    }
}

} // verus!
