use admission::counter::ConnectionCounter;
use admission::factory::ConnectionFactory;
use admission::gate::AdmissionGate;
use admission::gate::ReleaseOutcome;
use admission::response::fixed_body;
use admission::response::PendingResponse;
use admission::response::RESPONSE_DELAY_MS;

#[test]
fn gate_grants_until_capacity_then_queues() {
    let mut gate = AdmissionGate::new(2);
    assert_eq!(gate.capacity_units(), 2);
    assert_eq!(gate.free_units(), 2);
    let first = gate.try_reserve(1);
    assert!(first.is_some());
    let second = gate.try_reserve(2);
    assert!(second.is_some());
    let third = gate.try_reserve(3);
    assert!(third.is_none());
    assert!(gate.is_waiting(3));
    assert_eq!(gate.free_units(), 0);
    assert_eq!(gate.held_units(), 2);
}

#[test]
fn gate_release_hands_freed_unit_to_earliest_waiter() {
    let mut gate = AdmissionGate::new(1);
    let token = gate.try_reserve(7).unwrap();
    assert!(gate.try_reserve(8).is_none());
    assert!(gate.try_reserve(9).is_none());

    let outcome = gate.release(token);
    let token = match outcome {
        ReleaseOutcome::Handoff { waiter, token } => {
            assert_eq!(waiter, 8);
            token
        }
        ReleaseOutcome::Returned => panic!("earliest waiter was passed over"),
    };
    assert!(!gate.is_waiting(8));
    assert!(gate.is_waiting(9));

    let outcome = gate.release(token);
    let token = match outcome {
        ReleaseOutcome::Handoff { waiter, token } => {
            assert_eq!(waiter, 9);
            token
        }
        ReleaseOutcome::Returned => panic!("earliest waiter was passed over"),
    };

    let outcome = gate.release(token);
    assert!(matches!(outcome, ReleaseOutcome::Returned));
    assert_eq!(gate.free_units(), 1);
    assert_eq!(gate.held_units(), 0);
}

#[test]
fn counter_reports_each_new_total() {
    let mut counter = ConnectionCounter::new();
    assert_eq!(counter.current(), 0);
    assert_eq!(counter.increment(), 1);
    assert_eq!(counter.increment(), 2);
    assert_eq!(counter.decrement(), 1);
    assert_eq!(counter.current(), 1);
}

#[test]
fn response_is_not_delivered_before_the_deadline() {
    let mut pending = PendingResponse::new(1000, 250, "pong");
    assert!(pending.poll(1000).is_none());
    assert!(pending.poll(1249).is_none());
    let delivered = pending.poll(1250);
    assert_eq!(delivered, Some("pong"));
}

#[test]
fn fixed_body_is_the_fixed_body() {
    assert_eq!(fixed_body(), "Hello World!\n");
    assert_eq!(RESPONSE_DELAY_MS, 250);
}

#[test]
fn factory_dispatches_a_handler_owning_the_token() {
    let mut gate = AdmissionGate::new(1);
    let mut counter = ConnectionCounter::new();
    let mut factory = ConnectionFactory::new();

    assert!(factory.poll_ready(&mut gate, 5));
    let (handler, total) = factory.call(&mut counter, 5);
    assert_eq!(total, 1);
    assert_eq!(handler.id_value(), 5);
    assert!(handler.poll_ready());
    assert_eq!(gate.held_units(), 1);

    let mut pending = handler.handle_request("GET", "/", 0);
    assert!(pending.poll(RESPONSE_DELAY_MS - 1).is_none());
    assert_eq!(pending.poll(RESPONSE_DELAY_MS), Some("Hello World!\n"));

    let (total, released) = handler.teardown(&mut gate, &mut counter);
    assert_eq!(total, 0);
    assert!(matches!(released, ReleaseOutcome::Returned));
    assert_eq!(gate.free_units(), 1);
    assert_eq!(counter.current(), 0);
}

#[test]
fn factory_stays_pending_while_capacity_is_held() {
    let mut gate = AdmissionGate::new(1);
    let mut counter = ConnectionCounter::new();
    let mut factory = ConnectionFactory::new();

    assert!(factory.poll_ready(&mut gate, 1));
    let (_holder, _) = factory.call(&mut counter, 1);

    let mut second = ConnectionFactory::new();
    assert!(!second.poll_ready(&mut gate, 2));
    assert!(gate.is_waiting(2));
}

#[test]
fn teardown_mid_request_still_frees_the_slot() {
    let mut gate = AdmissionGate::new(1);
    let mut counter = ConnectionCounter::new();
    let mut factory = ConnectionFactory::new();

    assert!(factory.poll_ready(&mut gate, 1));
    let (handler, _) = factory.call(&mut counter, 1);

    // A request is in flight and its response never polled: the teardown
    // path must free the slot all the same.
    let _abandoned = handler.handle_request("GET", "/slow", 0);
    let (total, released) = handler.teardown(&mut gate, &mut counter);
    assert_eq!(total, 0);
    assert!(matches!(released, ReleaseOutcome::Returned));
    assert_eq!(gate.free_units(), 1);
    assert_eq!(counter.current(), 0);
}

#[test]
fn observed_latency_is_at_least_the_fixed_delay() {
    let issued: u64 = 1000;
    let mut gate = AdmissionGate::new(1);
    let mut counter = ConnectionCounter::new();
    let mut factory = ConnectionFactory::new();
    assert!(factory.poll_ready(&mut gate, 1));
    let (handler, _) = factory.call(&mut counter, 1);

    let mut pending = handler.handle_request("GET", "/", issued);
    let mut now = issued;
    let delivered_at = loop {
        if pending.poll(now).is_some() {
            break now;
        }
        now += 1;
    };
    assert!(delivered_at - issued >= RESPONSE_DELAY_MS);
    assert_eq!(delivered_at - issued, RESPONSE_DELAY_MS);
}
