use prism::connection::{ConnectionStats, ConnectionTable, ERROR_THRESHOLD, STALE_AFTER_MS};
use prism::error::UnixSocketError;

#[test]
fn stats_track_errors_and_recoveries() {
    let mut st = ConnectionStats::new(100, 100, 0, 0);
    assert_eq!(st.last_activity(), 100);
    assert_eq!(st.errors(), 0);
    st.add_error();
    st.add_error();
    assert_eq!(st.errors(), 2);
    st.error_rest();
    assert_eq!(st.errors(), 0);
    st.recovery_attempts_increase();
    assert_eq!(st.recovery_attempts(), 1);
}

#[test]
fn register_rejects_taken_id() {
    let mut t = ConnectionTable::new(3);
    assert!(t.try_register(7, 1000));
    assert!(!t.try_register(7, 2000));
    assert!(t.try_register(8, 2000));
    assert_eq!(t.len(), 2);
    let st = t.get_stats(7).unwrap();
    assert_eq!(st.connected_at, 1000);
    assert_eq!(st.last_activity, 1000);
    assert_eq!((st.error_count, st.recovery_attempts), (0, 0));
}

#[test]
fn third_error_asks_for_recovery() {
    let mut t = ConnectionTable::new(3);
    assert!(t.try_register(1, 0));
    assert_eq!(t.note_error(1), Some(false));
    assert_eq!(t.note_error(1), Some(false));
    assert_eq!(t.note_error(1), Some(true));
    assert_eq!(t.get_stats(1).unwrap().error_count, ERROR_THRESHOLD);
    // Unknown connections yield nothing.
    assert_eq!(t.note_error(2), None);
}

#[test]
fn recovery_attempts_are_capped() {
    let mut t = ConnectionTable::new(3);
    assert!(t.try_register(1, 0));
    assert_eq!(t.begin_recovery(1), Ok(true));
    assert_eq!(t.begin_recovery(1), Ok(true));
    assert_eq!(t.begin_recovery(1), Ok(true));
    // The cap: no fourth attempt is granted.
    assert_eq!(t.begin_recovery(1), Ok(false));
    assert_eq!(t.get_stats(1).unwrap().recovery_attempts, 3);
    assert_eq!(
        t.begin_recovery(99),
        Err(UnixSocketError::ConnectionNotFound(99))
    );
}

#[test]
fn successful_recovery_clears_error_budget() {
    let mut t = ConnectionTable::new(3);
    assert!(t.try_register(1, 0));
    t.note_error(1);
    t.note_error(1);
    t.note_error(1);
    assert_eq!(t.begin_recovery(1), Ok(true));
    t.recovery_succeeded(1);
    assert_eq!(t.get_stats(1).unwrap().error_count, 0);
    assert_eq!(t.get_stats(1).unwrap().recovery_attempts, 1);
}

#[test]
fn staleness_is_judged_at_sixty_seconds() {
    let mut t = ConnectionTable::new(3);
    assert!(t.try_register(1, 1000));
    assert!(t.try_register(2, 1000));
    t.record_activity(2, 50000);

    // Exactly the threshold is not yet stale.
    assert!(t.stale_ids(1000 + STALE_AFTER_MS).is_empty());
    // One millisecond past it is.
    let stale = t.stale_ids(1000 + STALE_AFTER_MS + 1);
    assert_eq!(stale, vec![1]);
    // Later both go stale.
    let mut stale = t.stale_ids(50000 + STALE_AFTER_MS + 1);
    stale.sort();
    assert_eq!(stale, vec![1, 2]);
}

#[test]
fn activity_refreshes_staleness() {
    let mut t = ConnectionTable::new(3);
    assert!(t.try_register(1, 0));
    t.record_activity(1, 100000);
    assert!(t.stale_ids(120000).is_empty());
    assert_eq!(t.get_stats(1).unwrap().last_activity, 100000);
    // Refreshing an unknown connection is ignored.
    t.record_activity(9, 100000);
    assert_eq!(t.len(), 1);
}

#[test]
fn eviction_broadcasts_to_all_others() {
    let mut t = ConnectionTable::new(3);
    assert!(t.try_register(1, 0));
    assert!(t.try_register(2, 0));
    assert!(t.try_register(3, 0));
    let mut targets = t.handle_connection_failure(2);
    targets.sort();
    assert_eq!(targets, vec![1, 3]);
    assert!(!t.contains(2));
    assert_eq!(t.len(), 2);
}

#[test]
fn broadcast_targets_excludes_sender() {
    let mut t = ConnectionTable::new(3);
    assert!(t.try_register(1, 0));
    assert!(t.try_register(2, 0));
    let targets = t.broadcast_targets(1);
    assert_eq!(targets, vec![2]);
}

#[test]
fn removing_unknown_connection_is_noop() {
    let mut t = ConnectionTable::new(3);
    assert!(t.try_register(1, 0));
    t.remove_connection(5);
    assert_eq!(t.len(), 1);
    t.remove_connection(1);
    assert_eq!(t.len(), 0);
    t.remove_connection(1);
    assert_eq!(t.len(), 0);
}

#[test]
fn cleanup_empties_the_table() {
    let mut t = ConnectionTable::new(3);
    assert!(t.try_register(1, 0));
    assert!(t.try_register(2, 0));
    t.cleanup();
    assert_eq!(t.len(), 0);
    assert!(!t.contains(1));
}

#[test]
fn oversize_frame_errors_lead_to_eviction_flow() {
    // The eviction path of a connection that keeps sending oversize
    // frames: each tick counts one error, the third asks for recovery,
    // and once recovery is out of attempts the connection is evicted.
    let mut t = ConnectionTable::new(3);
    assert!(t.try_register(10, 0));
    assert!(t.try_register(11, 0));

    assert!(!prism::codec::check_frame_len(0x0100_0001));

    assert_eq!(t.note_error(10), Some(false));
    assert_eq!(t.note_error(10), Some(false));
    assert_eq!(t.note_error(10), Some(true));
    // The probes all fail: the budget runs out.
    assert_eq!(t.begin_recovery(10), Ok(true));
    assert_eq!(t.begin_recovery(10), Ok(true));
    assert_eq!(t.begin_recovery(10), Ok(true));
    assert_eq!(t.begin_recovery(10), Ok(false));
    let targets = t.handle_connection_failure(10);
    assert_eq!(targets, vec![11]);
    assert!(!t.contains(10));
    assert!(t.contains(11));
}
