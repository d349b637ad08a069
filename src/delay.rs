//! The delaying decorator: for each outgoing message, a delay sampled at
//! once on the caller's side and a deferred delivery carried out later.
use vstd::prelude::*;
use crate::rng::{fresh_rng, RngSeedError};

verus! {

/// A distribution of delivery delays, in milliseconds. Each delaying socket
/// holds its own clone and samples it with its own generator.
pub trait DelayMillisDist: Clone + Send + Sync + 'static {
    /// One delay, in milliseconds.
    fn sample_millis(&self, rng: &mut rand::rngs::SmallRng) -> u64;
}

/// A delivery to be carried out after `delay_millis` milliseconds, without
/// the sender waiting for it. Neither the destination nor the message is
/// inspected or changed on the way.
pub struct DeferredSend<A, M> {
    pub delay_millis: u64,
    pub to: A,
    pub message: M,
}

/// The deferred delivery of `message` to `to` after `delay_millis` milliseconds.
pub fn deferred_send<A, M>(delay_millis: u64, to: A, message: M) -> (r: DeferredSend<A, M>)
    ensures
        r.delay_millis == delay_millis,
        r.to == to,
        r.message == message,
{
    DeferredSend { delay_millis, to, message }
}

/// The policy state of one delaying socket: its own clone of the delay
/// distribution and its own generator.
pub struct MessageDelayPolicy<D: DelayMillisDist> {
    distribution: D,
    rng: rand::rngs::SmallRng,
}

impl<D: DelayMillisDist> MessageDelayPolicy<D> {
    pub closed spec fn distribution_spec(&self) -> D {
        self.distribution
    }

    /// The policy for a newly opened socket, with a freshly seeded generator.
    pub fn open(distribution: D) -> (r: Result<MessageDelayPolicy<D>, RngSeedError>)
        ensures
            r matches Ok(s) ==> s.distribution_spec() == distribution,
    {
        match fresh_rng() {
            Ok(rng) => Ok(MessageDelayPolicy { distribution, rng }),
            Err(e) => Err(e),
        }
    }

    /// Samples the delay for one outgoing message and returns its deferred
    /// delivery; nothing here waits for the delay to pass.
    pub fn schedule<A, M>(&mut self, to: A, message: M) -> (r: DeferredSend<A, M>)
        ensures
            final(self).distribution_spec() == old(self).distribution_spec(),
            r.to == to,
            r.message == message,
    {
        let delay_millis = self.distribution.sample_millis(&mut self.rng);
        deferred_send(delay_millis, to, message)
    }
}

} // verus!
