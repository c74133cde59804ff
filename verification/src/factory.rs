use vstd::prelude::*;

use crate::counter::ConnectionCounter;
use crate::gate::AdmissionGate;
use crate::gate::AdmissionToken;
use crate::handler::ConnectionHandler;

verus! {

/// The control loop that turns accepted raw connections into admitted
/// connection handlers.
///
/// Per connection it moves through three stages: awaiting a token (the
/// only stage that may have to wait), holding a token, and dispatching a
/// handler.  Between being granted a token and consuming it the factory
/// never waits, so a granted token is always promptly attached to a
/// handler and cannot be stranded.
pub struct ConnectionFactory {
    permit: Option<AdmissionToken>,
}

impl ConnectionFactory {
    /// Whether a granted token is in hand, ready to be consumed.
    pub closed spec fn holds_token(self) -> bool {
        self.permit is Some
    }

    /// A fresh factory, holding no token.
    pub fn new() -> (factory: ConnectionFactory)
        ensures
            !factory.holds_token(),
    {
        ConnectionFactory { permit: None }
    }

    /// Drive the factory toward readiness on behalf of `waiter`.
    ///
    /// Ready exactly when a token is in hand afterwards: a token already
    /// held is kept, a free unit of capacity is reserved on the spot, and
    /// with capacity exhausted `waiter` queues up and the factory stays
    /// pending until a release hands it the freed token.
    pub fn poll_ready(&mut self, gate: &mut AdmissionGate, waiter: u64) -> (ready: bool)
        requires
            old(gate).well_formed(),
        ensures
            final(gate).well_formed(),
            final(gate).capacity() == old(gate).capacity(),
            ready <==> final(self).holds_token(),
            old(self).holds_token() ==> ready && *final(gate) == *old(gate) && *final(self)
                == *old(self),
            !old(self).holds_token() ==> {
                &&& (ready <==> old(gate).available() > 0)
                &&& ready ==> {
                    &&& final(gate).available() == old(gate).available() - 1
                    &&& final(gate).outstanding() == old(gate).outstanding() + 1
                    &&& final(gate).waiters() == old(gate).waiters()
                }
                &&& !ready ==> {
                    &&& final(gate).available() == old(gate).available()
                    &&& final(gate).outstanding() == old(gate).outstanding()
                    &&& final(gate).waiters() == old(gate).waiters().push(waiter)
                }
            },
    {
        if self.permit.is_none() {
            match gate.try_reserve(waiter) {
                Some(token) => {
                    self.permit = Some(token);
                    true
                },
                None => false,
            }
        } else {
            true
        }
    }

    /// A release handed this factory the token of a freed slot, on behalf
    /// of the earliest waiter; the factory is ready from here on.
    pub fn receive_token(&mut self, token: AdmissionToken)
        requires
            !old(self).holds_token(),
        ensures
            final(self).holds_token(),
    {
        self.permit = Some(token);
    }

    /// Consume the held token: count the connection in and dispatch a
    /// handler owning the token and bound to connection `id`.
    ///
    /// Asking for a handler while no token is held is the
    /// admission-protocol violation — the driving loop skipped the
    /// readiness step.  That is a defect, not a recoverable error, and is
    /// excluded by precondition.
    pub fn call(&mut self, counter: &mut ConnectionCounter, id: u64) -> (dispatched: (
        ConnectionHandler,
        u64,
    ))
        requires
            old(self).holds_token(),
            old(counter).value() < u64::MAX,
        ensures
            !final(self).holds_token(),
            final(counter).value() == old(counter).value() + 1,
            dispatched.1 == final(counter).value(),
            dispatched.0.id() == id,
    {
        let token: AdmissionToken = self.permit.take().unwrap();
        let total: u64 = counter.increment();
        (ConnectionHandler::attach(id, token), total)
    }
}

} // verus!
