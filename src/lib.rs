//! Fault injection for message transports: the decisions that a dropping
//! decorator and a delaying decorator make for each outgoing message.
pub mod rng;
pub mod drop;
pub mod delay;
