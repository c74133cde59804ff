use vstd::prelude::*;

use crate::counter::ConnectionCounter;
use crate::factory::ConnectionFactory;
use crate::gate::AdmissionGate;
use crate::gate::ReleaseOutcome;
use crate::handler::ConnectionHandler;

verus! {

/// The concurrency capacity of the reference configuration: at most this
/// many connections are admitted at once.
pub const DEFAULT_CAPACITY: u64 = 5;

/// One connection-lifecycle event, as the transport delivers them.
#[derive(Clone, Copy, Debug)]
pub enum ConnectionEvent {
    /// A new connection, identified by `id`, asks to be admitted.
    Connect { id: u64 },
    /// The connection identified by `id` ends — normal close, error and
    /// abrupt drop alike.
    Disconnect { id: u64 },
}

/// The mathematical state of the admission system: how much capacity is
/// free, how many connections are counted live, who waits (earliest
/// first) and who is admitted (in admission order).
#[verifier::ext_equal]
pub struct AdmissionModel {
    pub capacity: int,
    pub available: int,
    pub counter: int,
    pub waiters: Seq<u64>,
    pub live: Seq<u64>,
}

/// The bookkeeping invariant: the counter agrees exactly with the number
/// of admitted connections — each of which owns one outstanding admission
/// token — every unit of capacity is either free or owned by an admitted
/// connection, and no one waits while a unit is free.  In particular the
/// number of admitted connections never exceeds the capacity.
pub open spec fn model_inv(m: AdmissionModel) -> bool {
    &&& m.capacity > 0
    &&& m.available >= 0
    &&& m.counter == m.live.len()
    &&& m.available + m.live.len() == m.capacity
    &&& m.waiters.len() > 0 ==> m.available == 0
}

/// What one connection event does to the admission system.
///
/// A fresh connection is admitted on the spot exactly when a unit of
/// capacity is free, and queues up otherwise.  A disconnect of an
/// admitted connection frees its unit; when someone is waiting, the
/// earliest waiter — and no other — is admitted in the same step, so the
/// freed unit never passes a queue.  Events that name an id already
/// present, or a disconnect of an id not admitted, change nothing.
pub open spec fn model_step(m: AdmissionModel, event: ConnectionEvent) -> AdmissionModel {
    match event {
        ConnectionEvent::Connect { id } => {
            if m.live.contains(id) || m.waiters.contains(id) {
                m
            } else if m.available > 0 {
                AdmissionModel {
                    capacity: m.capacity,
                    available: m.available - 1,
                    counter: m.counter + 1,
                    waiters: m.waiters,
                    live: m.live.push(id),
                }
            } else {
                AdmissionModel {
                    capacity: m.capacity,
                    available: m.available,
                    counter: m.counter,
                    waiters: m.waiters.push(id),
                    live: m.live,
                }
            }
        },
        ConnectionEvent::Disconnect { id } => {
            if !m.live.contains(id) {
                m
            } else if m.waiters.len() > 0 {
                AdmissionModel {
                    capacity: m.capacity,
                    available: m.available,
                    counter: m.counter,
                    waiters: m.waiters.drop_first(),
                    live: m.live.remove_value(id).push(m.waiters[0]),
                }
            } else {
                AdmissionModel {
                    capacity: m.capacity,
                    available: m.available + 1,
                    counter: m.counter - 1,
                    waiters: m.waiters,
                    live: m.live.remove_value(id),
                }
            }
        },
    }
}

/// The admission system after a whole sequence of connection events.
pub open spec fn model_run(m: AdmissionModel, events: Seq<ConnectionEvent>) -> AdmissionModel
    decreases events.len(),
{
    if events.len() == 0 {
        m
    } else {
        model_run(model_step(m, events[0]), events.drop_first())
    }
}

/// Law: one connection event preserves the bookkeeping invariant.
pub proof fn lemma_step_preserves_inv(m: AdmissionModel, event: ConnectionEvent)
    requires
        model_inv(m),
    ensures
        model_inv(model_step(m, event)),
        model_step(m, event).capacity == m.capacity,
{
    match event {
        ConnectionEvent::Connect { id: _ } => {
        },
        ConnectionEvent::Disconnect { id } => {
            if m.live.contains(id) {
                m.live.index_of_first_ensures(id);
            }
        },
    }
}

/// Law: under every sequence of connect/disconnect events, at every point,
/// the connection counter equals the number of admitted connections — one
/// outstanding admission token each — and neither exceeds the fixed
/// capacity.  Every point of a run is the end of some prefix of it, so
/// this covers each intermediate state.
pub proof fn lemma_run_preserves_inv(m: AdmissionModel, events: Seq<ConnectionEvent>)
    requires
        model_inv(m),
    ensures
        model_inv(model_run(m, events)),
        model_run(m, events).capacity == m.capacity,
        model_run(m, events).counter == model_run(m, events).live.len(),
        model_run(m, events).counter <= m.capacity,
    decreases events.len(),
{
    if events.len() > 0 {
        lemma_step_preserves_inv(m, events[0]);
        lemma_run_preserves_inv(model_step(m, events[0]), events.drop_first());
    }
}

/// Law: with all capacity held, a fresh connection does not get admitted;
/// it joins the back of the queue and the live set and counter stand
/// still.  Its admission can only come from a later teardown.
pub proof fn lemma_full_capacity_blocks(m: AdmissionModel, id: u64)
    requires
        model_inv(m),
        m.live.len() == m.capacity,
        !m.live.contains(id),
        !m.waiters.contains(id),
    ensures
        model_step(m, ConnectionEvent::Connect { id }).live == m.live,
        model_step(m, ConnectionEvent::Connect { id }).counter == m.counter,
        model_step(m, ConnectionEvent::Connect { id }).waiters == m.waiters.push(id),
{
}

/// Law: as long as every further event is a connection attempt — no
/// admitted connection ends — a system at full capacity admits nobody:
/// the admitted set and the counter stand still, and everyone already
/// queued keeps their place in the queue.  An admission of a waiter can
/// therefore only come from a teardown.
pub proof fn lemma_no_admission_without_teardown(m: AdmissionModel, events: Seq<ConnectionEvent>)
    requires
        model_inv(m),
        m.live.len() == m.capacity,
        forall|k: int| 0 <= k < events.len() ==> events[k] is Connect,
    ensures
        model_run(m, events).live == m.live,
        model_run(m, events).counter == m.counter,
        model_run(m, events).waiters.len() >= m.waiters.len(),
        forall|k: int|
            0 <= k < m.waiters.len() ==> model_run(m, events).waiters[k] == m.waiters[k],
    decreases events.len(),
{
    if events.len() > 0 {
        lemma_step_preserves_inv(m, events[0]);
        let m2 = model_step(m, events[0]);
        assert(forall|k: int| 0 <= k < m.waiters.len() ==> m2.waiters[k] == m.waiters[k]);
        lemma_no_admission_without_teardown(m2, events.drop_first());
    }
}

/// Law: tearing down an admitted connection while the queue is not empty
/// admits exactly one waiter — the earliest — in the same step: the freed
/// unit is handed over, the rest of the queue and the counter stand
/// still.
pub proof fn lemma_teardown_admits_earliest_waiter(m: AdmissionModel, id: u64)
    requires
        model_inv(m),
        m.live.contains(id),
        m.waiters.len() > 0,
    ensures
        ({
            let next = model_step(m, ConnectionEvent::Disconnect { id });
            &&& next.live == m.live.remove_value(id).push(m.waiters[0])
            &&& next.live.contains(m.waiters[0])
            &&& next.waiters == m.waiters.drop_first()
            &&& next.waiters.len() == m.waiters.len() - 1
            &&& next.counter == m.counter
        }),
{
    let next = model_step(m, ConnectionEvent::Disconnect { id });
    assert(next.live.last() == m.waiters[0]);
}

/// Law: tearing down an admitted connection — on whatever path the
/// teardown came about — never leaks its unit of capacity: afterwards
/// every unit is again either free or owned by an admitted connection,
/// and the departed connection was counted out.
pub proof fn lemma_teardown_releases(m: AdmissionModel, id: u64)
    requires
        model_inv(m),
        m.live.contains(id),
    ensures
        ({
            let next = model_step(m, ConnectionEvent::Disconnect { id });
            &&& model_inv(next)
            &&& next.available + next.live.len() == m.capacity
            &&& m.waiters.len() == 0 ==> next.counter == m.counter - 1 && next.available
                == m.available + 1
            &&& m.waiters.len() > 0 ==> next.counter == m.counter && next.waiters.len()
                == m.waiters.len() - 1
        }),
{
    lemma_step_preserves_inv(m, ConnectionEvent::Disconnect { id });
    m.live.index_of_first_ensures(id);
}

/// What one step of the system did, observably: the totals it reports are
/// the ones an observability line at the edge of the program carries.
#[derive(Debug)]
pub enum StepOutcome {
    /// The connection was admitted on the spot; the total once it was
    /// counted in.
    Admitted { total: u64 },
    /// All capacity is held; the connection is queued.
    Queued,
    /// An admitted connection was torn down: the total once it was
    /// counted out and, when a waiter took over the freed unit in the
    /// same step, that waiter and the total once it was counted in.
    Removed { total: u64, handoff: Option<(u64, u64)> },
    /// The event named an id already present, or one not admitted;
    /// nothing changed.
    Ignored,
}

/// The whole admission system: one gate, one counter, one factory and the
/// live handlers, driven by connection events.
///
/// Each step refines [`model_step`], so the laws proved of the model hold
/// of this state as driven by any event sequence.
pub struct SystemState {
    gate: AdmissionGate,
    counter: ConnectionCounter,
    factory: ConnectionFactory,
    live: Vec<ConnectionHandler>,
}

impl SystemState {
    /// The ids of the admitted connections, in admission order.
    pub closed spec fn live_ids(self) -> Seq<u64> {
        self.live@.map_values(|handler: ConnectionHandler| handler.id())
    }

    /// The mathematical state this system is in.
    pub closed spec fn to_model(self) -> AdmissionModel {
        AdmissionModel {
            capacity: self.gate.capacity(),
            available: self.gate.available(),
            counter: self.counter.value(),
            waiters: self.gate.waiters(),
            live: self.live_ids(),
        }
    }

    /// The whole-system invariant: the model bookkeeping holds, the admission gate
    /// is well formed, every outstanding token is owned by exactly one
    /// live handler, and no token sits with the factory between steps.
    pub open spec fn inv(self) -> bool {
        &&& model_inv(self.to_model())
        &&& self.components_ok()
    }

    /// The component part of the invariant: the admission gate is well formed,
    /// every outstanding token is owned by exactly one live handler, and
    /// no token sits with the factory between steps.
    pub closed spec fn components_ok(self) -> bool {
        &&& self.gate.well_formed()
        &&& self.gate.outstanding() == self.live@.len()
        &&& !self.factory.holds_token()
    }

    /// A fresh system of the given capacity: all capacity free, no one
    /// admitted, no one waiting.
    pub fn new(capacity: u64) -> (system: SystemState)
        requires
            capacity > 0,
        ensures
            system.inv(),
            system.to_model().capacity == capacity,
            system.to_model().available == capacity,
            system.to_model().counter == 0,
            system.to_model().waiters == Seq::<u64>::empty(),
            system.to_model().live == Seq::<u64>::empty(),
    {
        let system = SystemState {
            gate: AdmissionGate::new(capacity),
            counter: ConnectionCounter::new(),
            factory: ConnectionFactory::new(),
            live: Vec::new(),
        };
        proof {
            assert(system.live_ids() =~= Seq::<u64>::empty());
        }
        system
    }

    /// The number of connections counted live, for observation.
    pub fn live_total(&self) -> (total: u64)
        ensures
            total == self.to_model().counter,
    {
        self.counter.current()
    }

    /// The number of free units of capacity, for observation.
    pub fn free_capacity(&self) -> (units: u64)
        ensures
            units == self.to_model().available,
    {
        self.gate.free_units()
    }

    /// Whether `id` is queued for admission, for observation.
    pub fn is_waiting(&self, id: u64) -> (waiting: bool)
        ensures
            waiting <==> self.to_model().waiters.contains(id),
    {
        self.gate.is_waiting(id)
    }

    /// The index of the live handler serving `id`, if `id` is admitted.
    fn find_live(&self, id: u64) -> (found: Option<usize>)
        ensures
            found matches Some(i) ==> {
                &&& i < self.live@.len()
                &&& self.live_ids()[i as int] == id
                &&& forall|j: int| 0 <= j < i ==> self.live_ids()[j] != id
            },
            found is None ==> !self.live_ids().contains(id),
    {
        let mut i: usize = 0;
        while i < self.live.len()
            invariant
                i <= self.live@.len(),
                forall|j: int| 0 <= j < i ==> self.live_ids()[j] != id,
            decreases self.live@.len() - i,
        {
            if self.live[i].id_value() == id {
                return Some(i);
            }
            i = i + 1;
        }
        None
    }

    /// Apply one connection event to the system.
    ///
    /// The new state is exactly [`model_step`] of the old one, so the
    /// model laws carry over to every run of this function; the outcome
    /// reports what happened and the totals in the order they became
    /// observable.
    pub fn step(&mut self, event: ConnectionEvent) -> (outcome: StepOutcome)
        requires
            old(self).inv(),
        ensures
            final(self).inv(),
            final(self).to_model() == model_step(old(self).to_model(), event),
            event matches ConnectionEvent::Connect { id } ==> ({
                let m = old(self).to_model();
                &&& m.live.contains(id) || m.waiters.contains(id) ==> outcome is Ignored
                &&& !m.live.contains(id) && !m.waiters.contains(id) && m.available > 0 ==> {
                    outcome matches StepOutcome::Admitted { total } && total == m.counter + 1
                }
                &&& !m.live.contains(id) && !m.waiters.contains(id) && m.available == 0
                    ==> outcome is Queued
            }),
            event matches ConnectionEvent::Disconnect { id } ==> ({
                let m = old(self).to_model();
                &&& !m.live.contains(id) ==> outcome is Ignored
                &&& m.live.contains(id) && m.waiters.len() == 0 ==> {
                    outcome matches StepOutcome::Removed { total, handoff } && total == m.counter
                        - 1 && handoff is None
                }
                &&& m.live.contains(id) && m.waiters.len() > 0 ==> {
                    outcome matches StepOutcome::Removed { total, handoff } && (total == m.counter
                        - 1 && (handoff matches Some(granted) && granted.0 == m.waiters[0]
                        && granted.1 == m.counter))
                }
            }),
    {
        match event {
            ConnectionEvent::Connect { id } => {
                let present = self.find_live(id);
                if present.is_some() || self.gate.is_waiting(id) {
                    StepOutcome::Ignored
                } else {
                    let ready = self.factory.poll_ready(&mut self.gate, id);
                    if ready {
                        let (handler, total) = self.factory.call(&mut self.counter, id);
                        self.live.push(handler);
                        proof {
                            assert(self.live_ids() =~= old(self).live_ids().push(id));
                            assert(self.to_model() =~= model_step(old(self).to_model(), event));
                        }
                        StepOutcome::Admitted { total }
                    } else {
                        proof {
                            assert(self.to_model() =~= model_step(old(self).to_model(), event));
                        }
                        StepOutcome::Queued
                    }
                }
            },
            ConnectionEvent::Disconnect { id } => {
                let present = self.find_live(id);
                match present {
                    None => StepOutcome::Ignored,
                    Some(i) => {
                        proof {
                            old(self).live_ids().index_of_first_ensures(id);
                            assert(old(self).live_ids().index_of_first(id) == Some(i as int));
                        }
                        let handler = self.live.remove(i);
                        proof {
                            assert(self.live_ids() =~= old(self).live_ids().remove(i as int));
                        }
                        let (total, released) = handler.teardown(&mut self.gate, &mut self.counter);
                        match released {
                            ReleaseOutcome::Returned => {
                                proof {
                                    assert(self.to_model() =~= model_step(
                                        old(self).to_model(),
                                        event,
                                    ));
                                }
                                StepOutcome::Removed { total, handoff: None }
                            },
                            ReleaseOutcome::Handoff { waiter, token } => {
                                self.factory.receive_token(token);
                                let (granted_handler, granted_total) = self.factory.call(
                                    &mut self.counter,
                                    waiter,
                                );
                                let ghost mid_ids = self.live_ids();
                                self.live.push(granted_handler);
                                proof {
                                    assert(self.live_ids() =~= mid_ids.push(waiter));
                                    assert(self.to_model() =~= model_step(
                                        old(self).to_model(),
                                        event,
                                    ));
                                }
                                StepOutcome::Removed {
                                    total,
                                    handoff: Some((waiter, granted_total)),
                                }
                            },
                        }
                    },
                }
            },
        }
    }
}

} // verus!
