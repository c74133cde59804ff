//! An admission-controlled connection factory.
//!
//! A fixed-capacity [`gate::AdmissionGate`] issues move-only admission
//! tokens; a [`counter::ConnectionCounter`] tracks the number of live
//! connections; a [`factory::ConnectionFactory`] turns accepted raw
//! connections into [`handler::ConnectionHandler`]s, each of which owns
//! its admission token for its whole lifetime and surrenders it, together
//! with a counter decrement, on teardown.  [`system::SystemState`] composes
//! these pieces into a step function over connect/disconnect events and
//! carries the proofs that admission bookkeeping can never drift: the
//! number of outstanding tokens always equals the live-connection count
//! and never exceeds capacity, and freed capacity goes to the
//! earliest waiter.

pub mod counter;
pub mod factory;
pub mod gate;
pub mod handler;
pub mod response;
pub mod system;
