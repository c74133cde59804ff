use vstd::prelude::*;

verus! {

/// The fixed artificial delay, in milliseconds, before any response is
/// delivered.
pub const RESPONSE_DELAY_MS: u64 = 250;

/// The fixed body every response carries.
pub fn fixed_body() -> (body: &'static str)
    ensures
        body@ == "Hello World!\n"@,
{
    "Hello World!\n"
}

/// Law: a request accepted at instant `issued` has its response in hand at
/// instant `delivered_at` only with an observed latency of at least the
/// fixed delay.  The first premise is what accepting a request sets up;
/// the second is the only condition under which a poll delivers.
pub proof fn lemma_latency_at_least_delay(
    pending: PendingResponse,
    issued: u64,
    delivered_at: u64,
)
    requires
        pending.deadline() == issued + RESPONSE_DELAY_MS,
        delivered_at >= pending.deadline(),
    ensures
        delivered_at - issued >= RESPONSE_DELAY_MS,
{
}

/// One unit of in-flight delayed work: a response that becomes deliverable
/// once its deadline has passed, and is delivered exactly once.
pub struct PendingResponse {
    deadline: u64,
    body: Option<&'static str>,
}

impl PendingResponse {
    /// The instant, in milliseconds, from which the response may be
    /// delivered.
    pub closed spec fn deadline(self) -> int {
        self.deadline as int
    }

    /// Whether the response is still undelivered.
    pub open spec fn pending(self) -> bool {
        self.body_state() is Some
    }

    /// The undelivered response value, if any.
    pub closed spec fn body_state(self) -> Option<&'static str> {
        self.body
    }

    /// The characters of the undelivered response.
    pub open spec fn body_view(self) -> Seq<char> {
        self.body_state().unwrap()@
    }

    /// A new pending response: deliverable from `now + delay` on.
    pub fn new(now: u64, delay: u64, body: &'static str) -> (pending: PendingResponse)
        requires
            now + delay <= u64::MAX,
        ensures
            pending.deadline() == now + delay,
            pending.pending(),
            pending.body_view() == body@,
    {
        PendingResponse { deadline: now + delay, body: Some(body) }
    }

    /// Poll the pending response at instant `now`.
    ///
    /// Nothing is delivered before the deadline; from the deadline on the
    /// response is delivered, and the unit is spent — it is a defect to
    /// poll a response that was already delivered, so that is excluded by
    /// precondition.
    pub fn poll(&mut self, now: u64) -> (delivered: Option<&'static str>)
        requires
            old(self).pending(),
        ensures
            final(self).deadline() == old(self).deadline(),
            delivered is Some <==> now >= old(self).deadline(),
            now < old(self).deadline() ==> *final(self) == *old(self),
            now >= old(self).deadline() ==> {
                &&& delivered matches Some(body) && body@ == old(self).body_view()
                &&& !final(self).pending()
            },
    {
        if now >= self.deadline {
            let body: &'static str = self.body.take().unwrap();
            Some(body)
        } else {
            None
        }
    }
}

} // verus!
