use validator_switch::tracker::{AlertTracker, ALERT_COOLDOWN_SECS};

#[test]
fn first_alert_fires_then_cooldown_holds() {
    let mut t = AlertTracker::new(2);
    assert!(t.should_send_alert(0, 1_000));
    assert!(!t.should_send_alert(0, 1_000 + ALERT_COOLDOWN_SECS - 1));
    assert!(t.should_send_alert(0, 1_000 + ALERT_COOLDOWN_SECS));
}

#[test]
fn validators_cool_down_independently() {
    let mut t = AlertTracker::new(2);
    assert!(t.should_send_alert(0, 10));
    assert!(t.should_send_alert(1, 11));
    assert!(!t.should_send_alert(0, 12));
    assert!(!t.should_send_alert(1, 13));
}

#[test]
fn index_out_of_range_never_alerts() {
    let mut t = AlertTracker::new(1);
    assert!(!t.should_send_alert(1, 0));
    assert!(!t.should_send_alert(5, 1_000_000));
    t.reset(7);
    assert!(t.should_send_alert(0, 0));
}

#[test]
fn reset_lets_the_next_alert_fire_at_once() {
    let mut t = AlertTracker::new(1);
    assert!(t.should_send_alert(0, 100));
    assert!(!t.should_send_alert(0, 101));
    t.reset(0);
    assert!(t.should_send_alert(0, 102));
}

#[test]
fn clock_going_backwards_reads_as_no_time_elapsed() {
    let mut t = AlertTracker::new(1);
    assert!(t.should_send_alert(0, 5_000));
    assert!(!t.should_send_alert(0, 4_000));
}

#[test]
fn true_answers_are_spaced_by_the_cooldown() {
    let mut t = AlertTracker::new(1);
    let mut fired = Vec::new();
    for now in (0u64..2_000).step_by(7) {
        if t.should_send_alert(0, now) {
            fired.push(now);
        }
    }
    assert_eq!(fired[0], 0);
    for w in fired.windows(2) {
        assert!(w[1] - w[0] >= ALERT_COOLDOWN_SECS);
    }
    assert_eq!(fired, vec![0, 301, 602, 903, 1204, 1505, 1806]);
}

#[test]
fn delinquency_alert_with_cooldown_scenario() {
    let mut t = AlertTracker::new(1);
    let threshold = 60;
    // vote frozen since instant 0
    assert!(!t.poll_delinquency(0, 30, threshold, 30));
    assert!(t.poll_delinquency(0, 65, threshold, 65));
    assert!(!t.poll_delinquency(0, 120, threshold, 120));
    assert!(t.poll_delinquency(0, 420, threshold, 420));
    // votes resume: the tracker resets
    assert!(!t.poll_delinquency(0, 2, threshold, 430));
    // a later lapse alerts at once
    assert!(t.poll_delinquency(0, 61, threshold, 500));
}
