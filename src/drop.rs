//! The dropping decorator: a probability of loss, and the per-message
//! decision between handing a message on and discarding it.
use vstd::prelude::*;
use crate::rng::{bernoulli_from_ratio, bernoulli_of_ratio, fresh_rng, sample_bernoulli, RngSeedError};

verus! {

/// A drop probability given as the ratio `numerator / denominator`, which lies in [0, 1].
#[derive(Clone, Copy)]
pub struct DropProbability {
    numerator: u32,
    denominator: u32,
    distribution: rand::distributions::Bernoulli,
}

/// A drop probability outside [0, 1] was asked for.
#[derive(Debug, PartialEq, Eq, Structural)]
pub enum ConfigError {
    ProbabilityOutOfRange,
}

/// What a dropping socket does with one outgoing message.
#[derive(Debug, Clone, Copy, PartialEq, Eq, Structural)]
pub enum SendDecision {
    /// Report success without touching the wrapped socket.
    Drop,
    /// Hand the message to the wrapped socket and return its outcome.
    Forward,
}

impl DropProbability {
    #[verifier::type_invariant]
    spec fn well_formed(self) -> bool {
        &&& 0 < self.denominator
        &&& self.numerator <= self.denominator
        &&& self.distribution == bernoulli_of_ratio(self.numerator, self.denominator)
    }

    /// The ratio `(numerator, denominator)` this probability was built from.
    pub closed spec fn ratio(self) -> (u32, u32) {
        (self.numerator, self.denominator)
    }

    /// No message is ever dropped.
    pub open spec fn never_drops(self) -> bool {
        self.ratio().0 == 0
    }

    /// Every message is dropped.
    pub open spec fn always_drops(self) -> bool {
        self.ratio().0 == self.ratio().1
    }

    /// The probability `numerator / denominator`; refused unless it lies in [0, 1]
    /// with a positive denominator.
    pub fn from_ratio(numerator: u32, denominator: u32) -> (r: Result<DropProbability, ConfigError>)
        ensures
            r is Ok <==> (0 < denominator && numerator <= denominator),
            r matches Ok(p) ==> p.ratio() == (numerator, denominator),
            r matches Err(e) ==> e == ConfigError::ProbabilityOutOfRange,
    {
        match bernoulli_from_ratio(numerator, denominator) {
            Ok(distribution) => Ok(DropProbability { numerator, denominator, distribution }),
            Err(_) => Err(ConfigError::ProbabilityOutOfRange),
        }
    }

    pub fn numerator(&self) -> (r: u32)
        ensures
            r == self.ratio().0,
    {
        self.numerator
    }

    pub fn denominator(&self) -> (r: u32)
        ensures
            r == self.ratio().1,
    {
        self.denominator
    }
}

/// Whether `decision` is one that a socket dropping with probability `p` may take:
/// with probability zero it forwards, with probability one it drops, and in
/// between chance decides.
pub open spec fn allowed_decision(p: DropProbability, decision: SendDecision) -> bool {
    &&& p.never_drops() ==> decision == SendDecision::Forward
    &&& p.always_drops() ==> decision == SendDecision::Drop
}

/// The number of messages in a run of send decisions that reach the wrapped socket.
pub open spec fn forwarded_count(decisions: Seq<SendDecision>) -> nat
    decreases decisions.len(),
{
    if decisions.len() == 0 {
        0
    } else {
        forwarded_count(decisions.drop_last()) + if decisions.last() == SendDecision::Forward {
            1nat
        } else {
            0nat
        }
    }
}

/// Through a socket that drops with probability zero, every message of any
/// run of sends reaches the wrapped socket.
pub proof fn lemma_zero_probability_forwards_every_message(
    p: DropProbability,
    decisions: Seq<SendDecision>,
)
    requires
        p.never_drops(),
        forall|i: int| 0 <= i < decisions.len() ==> allowed_decision(p, #[trigger] decisions[i]),
    ensures
        forwarded_count(decisions) == decisions.len(),
    decreases decisions.len(),
{
    if decisions.len() > 0 {
        let rest = decisions.drop_last();
        assert forall|i: int| 0 <= i < rest.len() implies allowed_decision(p, #[trigger] rest[i]) by {
            assert(rest[i] == decisions[i]);
        }
        lemma_zero_probability_forwards_every_message(p, rest);
        assert(allowed_decision(p, decisions[decisions.len() - 1]));
    }
}

/// Through a socket that drops with probability one, no message of any run
/// of sends reaches the wrapped socket, so nothing beneath it (a delaying
/// layer included) ever sees one, while every send reports success.
pub proof fn lemma_certain_drop_forwards_no_message(p: DropProbability, decisions: Seq<SendDecision>)
    requires
        p.always_drops(),
        forall|i: int| 0 <= i < decisions.len() ==> allowed_decision(p, #[trigger] decisions[i]),
    ensures
        forwarded_count(decisions) == 0,
        forall|i: int| 0 <= i < decisions.len() ==> decisions[i] == SendDecision::Drop,
    decreases decisions.len(),
{
    if decisions.len() > 0 {
        let rest = decisions.drop_last();
        assert forall|i: int| 0 <= i < rest.len() implies allowed_decision(p, #[trigger] rest[i]) by {
            assert(rest[i] == decisions[i]);
        }
        lemma_certain_drop_forwards_no_message(p, rest);
        assert(allowed_decision(p, decisions[decisions.len() - 1]));
    }
}

/// The decision that follows from one Bernoulli draw: `true` drops.
pub fn decision_for(should_drop: bool) -> (r: SendDecision)
    ensures
        r == (if should_drop { SendDecision::Drop } else { SendDecision::Forward }),
{
    if should_drop {
        SendDecision::Drop
    } else {
        SendDecision::Forward
    }
}

/// The policy state of one dropping socket: its probability and its own generator.
pub struct MessageDropPolicy {
    probability: DropProbability,
    rng: rand::rngs::SmallRng,
}

impl MessageDropPolicy {
    pub closed spec fn probability_spec(&self) -> DropProbability {
        self.probability
    }

    /// The policy for a newly opened socket, with a freshly seeded generator.
    pub fn open(probability: DropProbability) -> (r: Result<MessageDropPolicy, RngSeedError>)
        ensures
            r matches Ok(s) ==> s.probability_spec() == probability,
    {
        match fresh_rng() {
            Ok(rng) => Ok(MessageDropPolicy { probability, rng }),
            Err(e) => Err(e),
        }
    }

    pub fn probability(&self) -> (r: DropProbability)
        ensures
            r == self.probability_spec(),
    {
        self.probability
    }

    /// Draws once and decides the fate of one outgoing message.
    pub fn decide(&mut self) -> (r: SendDecision)
        ensures
            final(self).probability_spec() == old(self).probability_spec(),
            allowed_decision(old(self).probability_spec(), r),
    {
        proof {
            use_type_invariant(self.probability);
        }
        let should_drop = sample_bernoulli(&self.probability.distribution, &mut self.rng);
        decision_for(should_drop)
    }
}

} // verus!
