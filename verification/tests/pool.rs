use apocalypse::Dispatch;
use apocalypse::Error;
use apocalypse::Hell;
use apocalypse::MultipleMiniHell;

#[test]
fn a_pool_needs_at_least_one_replica() {
    assert!(matches!(MultipleMiniHell::new(0), Err(Error::WrongReplicas)));
    assert!(MultipleMiniHell::new(1).is_ok());
}

#[test]
fn idle_replicas_are_used_in_order() {
    let mut pool = MultipleMiniHell::new(3).unwrap();
    assert_eq!(pool.accept_message(100), Some(Dispatch { replica: 0, ticket: 100 }));
    assert_eq!(pool.accept_message(101), Some(Dispatch { replica: 1, ticket: 101 }));
    assert_eq!(pool.accept_message(102), Some(Dispatch { replica: 2, ticket: 102 }));
}

#[test]
fn overflow_waits_and_is_served_in_order() {
    let mut pool = MultipleMiniHell::new(2).unwrap();
    assert!(pool.accept_message(1).is_some());
    assert!(pool.accept_message(2).is_some());
    assert_eq!(pool.accept_message(3), None);
    assert_eq!(pool.accept_message(4), None);
    // a returning replica takes the oldest backlogged call, bypassing idle
    assert_eq!(pool.replica_done(0), Some(Dispatch { replica: 0, ticket: 3 }));
    assert_eq!(pool.replica_done(1), Some(Dispatch { replica: 1, ticket: 4 }));
    // with the backlog empty, returning replicas rejoin the idle queue
    assert_eq!(pool.replica_done(0), None);
    assert_eq!(pool.replica_done(1), None);
    assert_eq!(pool.accept_message(5), Some(Dispatch { replica: 0, ticket: 5 }));
}

#[test]
fn six_requests_on_three_replicas_all_get_served() {
    // replicas 0 and 1 are slow, replica 2 answers at once: the fast
    // replica picks up every backlogged request, and the broker counts six
    // successful deliveries.
    let mut hell = Hell::new();
    let a = hell.next_address();
    hell.commit_address();
    hell.register_demon(a).unwrap();

    let mut pool = MultipleMiniHell::new(3).unwrap();
    let mut served = Vec::new();
    for t in 1..=6u64 {
        hell.route_message(a).unwrap();
        hell.record_message_outcome(true);
        if let Some(d) = pool.accept_message(t) {
            served.push(d);
        }
    }
    assert_eq!(served.len(), 3);
    // replica 2 finishes first and then drains the whole backlog
    while let Some(d) = pool.replica_done(2) {
        assert_eq!(d.replica, 2);
        served.push(d);
    }
    // the slow replicas come back only now
    assert_eq!(pool.replica_done(0), None);
    assert_eq!(pool.replica_done(1), None);

    let mut tickets: Vec<u64> = served.iter().map(|d| d.ticket).collect();
    tickets.sort();
    assert_eq!(tickets, vec![1, 2, 3, 4, 5, 6]);
    assert_eq!(hell.stats().successful_messages, 6);
}

#[test]
fn killswitch_aborts_in_flight_replicas() {
    let mut pool = MultipleMiniHell::new(3).unwrap();
    assert!(pool.accept_message(1).is_some());
    assert!(pool.accept_message(2).is_some());
    let mut aborted = pool.killswitch(true);
    aborted.sort();
    assert_eq!(aborted, vec![0, 1]);
    // only the replica still held directly gets its on-vanquish hook
    assert_eq!(pool.closing_list().clone(), vec![2]);
    assert!(pool.confirm_needed());
}

#[test]
fn graceful_shutdown_vanquishes_idle_replicas_only() {
    let mut pool = MultipleMiniHell::new(3).unwrap();
    assert!(pool.accept_message(1).is_some());
    pool.shutdown(true);
    // replica 0 is still in flight and is not drained further
    assert_eq!(pool.closing_list().clone(), vec![1, 2]);
    assert!(pool.confirm_needed());
}
