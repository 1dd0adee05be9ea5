use amqprs::heartbeat::{HeartbeatTimer, ServerLiveness};

// P-law on concrete values: with h = 60, a heartbeat becomes due
// exactly when a full idle interval has passed, and sending one (which
// records activity) keeps a second one from being due before another
// full interval: exactly one heartbeat per idle window.
#[test]
fn one_heartbeat_per_idle_window() {
    let mut t = HeartbeatTimer::new(60, 1000);
    assert!(!t.due(1000));
    assert!(!t.due(1059));
    assert!(t.due(1060));
    assert!(t.due(1200));

    // the heartbeat is written at 1060 and recorded
    t.record_activity(1060);
    assert!(!t.due(1060));
    assert!(!t.due(1119));
    assert!(t.due(1120));
}

#[test]
fn zero_interval_disables_the_timer() {
    let t = HeartbeatTimer::new(0, 0);
    assert!(!t.due(0));
    assert!(!t.due(u64::MAX));
    let l = ServerLiveness::new(0, 0);
    assert!(!l.timed_out(u64::MAX));
}

#[test]
fn data_frames_push_the_deadline_back() {
    let mut t = HeartbeatTimer::new(10, 0);
    t.record_activity(5);
    assert!(!t.due(14));
    assert!(t.due(15));
}

// S5 (timer side): with h = 1 the peer is declared dead once nothing
// has arrived for 2h seconds.
#[test]
fn server_silence_times_out_at_twice_the_interval() {
    let mut l = ServerLiveness::new(1, 100);
    assert!(!l.timed_out(100));
    assert!(!l.timed_out(101));
    assert!(l.timed_out(102));
    assert!(l.timed_out(1000));

    // any frame, heartbeat included, resets the deadline
    l.record_frame(101);
    assert!(!l.timed_out(102));
    assert!(l.timed_out(103));
}
