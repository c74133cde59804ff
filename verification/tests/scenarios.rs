use admission::system::ConnectionEvent;
use admission::system::StepOutcome;
use admission::system::SystemState;
use admission::system::DEFAULT_CAPACITY;

fn admitted_total(outcome: StepOutcome) -> u64 {
    match outcome {
        StepOutcome::Admitted { total } => total,
        other => panic!("expected an admission, got {:?}", other),
    }
}

#[test]
fn five_connections_fill_capacity_and_the_sixth_waits() {
    assert_eq!(DEFAULT_CAPACITY, 5);
    let mut system = SystemState::new(DEFAULT_CAPACITY);

    for id in 1..=5u64 {
        let outcome = system.step(ConnectionEvent::Connect { id });
        assert_eq!(admitted_total(outcome), id);
    }
    assert_eq!(system.live_total(), 5);
    assert_eq!(system.free_capacity(), 0);

    let outcome = system.step(ConnectionEvent::Connect { id: 6 });
    assert!(matches!(outcome, StepOutcome::Queued));
    assert!(system.is_waiting(6));
    assert_eq!(system.live_total(), 5);

    let outcome = system.step(ConnectionEvent::Disconnect { id: 1 });
    match outcome {
        StepOutcome::Removed { total, handoff } => {
            assert_eq!(total, 4);
            assert_eq!(handoff, Some((6, 5)));
        }
        other => panic!("expected a teardown, got {:?}", other),
    }
    assert!(!system.is_waiting(6));
    assert_eq!(system.live_total(), 5);
    assert_eq!(system.free_capacity(), 0);
}

#[test]
fn earliest_waiter_is_admitted_first() {
    let mut system = SystemState::new(1);
    assert_eq!(admitted_total(system.step(ConnectionEvent::Connect { id: 1 })), 1);
    for id in 2..=4u64 {
        let outcome = system.step(ConnectionEvent::Connect { id });
        assert!(matches!(outcome, StepOutcome::Queued));
    }

    for id in 1..=3u64 {
        let outcome = system.step(ConnectionEvent::Disconnect { id });
        match outcome {
            StepOutcome::Removed { total, handoff } => {
                assert_eq!(total, 0);
                assert_eq!(handoff, Some((id + 1, 1)));
            }
            other => panic!("expected a handoff, got {:?}", other),
        }
        assert_eq!(system.live_total(), 1);
    }

    let outcome = system.step(ConnectionEvent::Disconnect { id: 4 });
    match outcome {
        StepOutcome::Removed { total, handoff } => {
            assert_eq!(total, 0);
            assert_eq!(handoff, None);
        }
        other => panic!("expected a plain teardown, got {:?}", other),
    }
    assert_eq!(system.live_total(), 0);
    assert_eq!(system.free_capacity(), 1);
}

#[test]
fn a_hundred_sequential_connections_never_overfill_a_single_slot() {
    let mut system = SystemState::new(1);
    for id in 0..100u64 {
        let outcome = system.step(ConnectionEvent::Connect { id });
        assert_eq!(admitted_total(outcome), 1);
        assert_eq!(system.live_total(), 1);

        let outcome = system.step(ConnectionEvent::Disconnect { id });
        match outcome {
            StepOutcome::Removed { total, handoff } => {
                assert_eq!(total, 0);
                assert_eq!(handoff, None);
            }
            other => panic!("expected a teardown, got {:?}", other),
        }
        assert_eq!(system.live_total(), 0);
        assert_eq!(system.free_capacity(), 1);
    }
}

#[test]
fn events_naming_no_fresh_or_live_connection_change_nothing() {
    let mut system = SystemState::new(2);
    assert_eq!(admitted_total(system.step(ConnectionEvent::Connect { id: 1 })), 1);

    let outcome = system.step(ConnectionEvent::Connect { id: 1 });
    assert!(matches!(outcome, StepOutcome::Ignored));
    assert_eq!(system.live_total(), 1);

    let outcome = system.step(ConnectionEvent::Disconnect { id: 9 });
    assert!(matches!(outcome, StepOutcome::Ignored));
    assert_eq!(system.live_total(), 1);

    assert_eq!(admitted_total(system.step(ConnectionEvent::Connect { id: 2 })), 2);
    let outcome = system.step(ConnectionEvent::Disconnect { id: 1 });
    assert!(matches!(outcome, StepOutcome::Removed { .. }));
    assert_eq!(system.live_total(), 1);
}

#[test]
fn a_queued_connection_is_ignored_if_it_reconnects() {
    let mut system = SystemState::new(1);
    assert_eq!(admitted_total(system.step(ConnectionEvent::Connect { id: 1 })), 1);
    assert!(matches!(system.step(ConnectionEvent::Connect { id: 2 }), StepOutcome::Queued));
    assert!(matches!(system.step(ConnectionEvent::Connect { id: 2 }), StepOutcome::Ignored));
    assert!(system.is_waiting(2));
}
