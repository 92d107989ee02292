use validator_switch::readiness::{assess_readiness, readiness_issues, NodeSnapshot, Role};

#[test]
fn unreachable_node_is_not_ready() {
    let s = NodeSnapshot::connection_failed();
    assert!(!s.connected);
    assert_eq!(s.identity_match, None);
    let r = assess_readiness(&s, Role::Standby, 0);
    assert!(!r.ready);
    assert!(r.checklist.iter().all(|c| !c.passing));
    assert_eq!(readiness_issues(&r.checklist)[0], "Connection failed");
}
