use vstd::prelude::*;

use crate::counter::ConnectionCounter;
use crate::gate::AdmissionGate;
use crate::gate::AdmissionToken;
use crate::gate::ReleaseOutcome;
use crate::response::PendingResponse;
use crate::response::RESPONSE_DELAY_MS;
use crate::response::fixed_body;

verus! {

/// The per-connection unit of work.
///
/// A handler owns exactly one admission token for its whole lifetime:
/// admission control is enforced for the lifetime of the connection, not
/// only at accept time.  Tearing the handler down — on any path — is the
/// single authoritative trigger for surrendering the token and counting
/// the connection out.
pub struct ConnectionHandler {
    id: u64,
    token: AdmissionToken,
}

impl ConnectionHandler {
    /// The identity of the connection this handler serves.
    pub closed spec fn id(self) -> u64 {
        self.id
    }

    /// Bind a freshly admitted connection to the token that admitted it.
    pub(crate) fn attach(id: u64, token: AdmissionToken) -> (handler: ConnectionHandler)
        ensures
            handler.id() == id,
    {
        ConnectionHandler { id, token }
    }

    /// The identity of the connection this handler serves.
    pub fn id_value(&self) -> (id: u64)
        ensures
            id == self.id(),
    {
        self.id
    }

    /// Always ready: requests on one connection are processed one at a
    /// time, and response production is total.
    pub fn poll_ready(&self) -> (ready: bool)
        ensures
            ready,
    {
        true
    }

    /// Accept one request, yielding the fixed response after the fixed
    /// delay.  The admission token is untouched: however long the request
    /// takes, the slot stays committed to this connection.
    pub fn handle_request(&self, _method: &str, _target: &str, now: u64) -> (pending:
        PendingResponse)
        requires
            now + RESPONSE_DELAY_MS <= u64::MAX,
        ensures
            pending.deadline() == now + RESPONSE_DELAY_MS,
            pending.pending(),
            pending.body_view() == "Hello World!\n"@,
    {
        PendingResponse::new(now, RESPONSE_DELAY_MS, fixed_body())
    }

    /// Tear the connection down.
    ///
    /// This is the one teardown path — normal close, error and abrupt
    /// drop all come through here — so the admission token is surrendered
    /// and the live count decremented on every way out of a connection,
    /// never only on the happy path.  Reports the total after removal and
    /// what became of the freed capacity.
    pub fn teardown(self, gate: &mut AdmissionGate, counter: &mut ConnectionCounter) -> (result: (
        u64,
        ReleaseOutcome,
    ))
        requires
            old(gate).well_formed(),
            old(gate).outstanding() > 0,
            old(counter).value() > 0,
        ensures
            final(gate).well_formed(),
            final(gate).capacity() == old(gate).capacity(),
            final(counter).value() == old(counter).value() - 1,
            result.0 == final(counter).value(),
            old(gate).waiters().len() > 0 ==> {
                &&& result.1 matches ReleaseOutcome::Handoff { waiter, .. }
                    && waiter == old(gate).waiters()[0]
                &&& final(gate).waiters() == old(gate).waiters().drop_first()
                &&& final(gate).available() == old(gate).available()
                &&& final(gate).outstanding() == old(gate).outstanding()
            },
            old(gate).waiters().len() == 0 ==> {
                &&& result.1 is Returned
                &&& final(gate).waiters() == old(gate).waiters()
                &&& final(gate).available() == old(gate).available() + 1
                &&& final(gate).outstanding() == old(gate).outstanding() - 1
            },
    {
        let total: u64 = counter.decrement();
        let outcome: ReleaseOutcome = gate.release(self.token);
        (total, outcome)
    }
}

} // verus!
