use validator_switch::probe::{ProbeReport, SyncStatus};
use validator_switch::readiness::{
    assess_readiness, check_label, format_swap_checklist, issue_text, parse_swap_readiness_output,
    readiness_issues, Check, CheckItem, FileReport, NodeSnapshot, Role,
};

const GIB_IN_KIB: u64 = 1024 * 1024;

fn healthy() -> NodeSnapshot {
    NodeSnapshot {
        connected: true,
        probe: ProbeReport {
            validator_running: Some(true),
            client: None,
            ledger_disk_used_pct: Some(40),
            load_milli: Some(500),
            sync: Some(SyncStatus::InSync),
        },
        files: Some(FileReport {
            funded_identity: Some(true),
            unfunded_identity: Some(true),
            vote_keypair: Some(true),
            tower_matches: Some(1),
            ledger_writable: Some(true),
            cli_executable: Some(true),
            disk_free_kb: Some(500 * GIB_IN_KIB),
        }),
        identity_match: Some(true),
        vote_match: Some(true),
    }
}

#[test]
fn healthy_node_is_ready_in_both_roles() {
    let s = healthy();
    let a = assess_readiness(&s, Role::Active, 100);
    assert!(a.ready);
    assert_eq!(a.checklist.len(), 12);
    let b = assess_readiness(&s, Role::Standby, 100);
    assert!(b.ready);
    assert_eq!(b.checklist.len(), 11);
}

#[test]
fn disk_free_exactly_ten_gib_passes() {
    let mut s = healthy();
    s.files.as_mut().unwrap().disk_free_kb = Some(10 * GIB_IN_KIB);
    assert!(assess_readiness(&s, Role::Active, 0).ready);
}

#[test]
fn disk_free_just_under_ten_gib_fails() {
    let mut s = healthy();
    s.files.as_mut().unwrap().disk_free_kb = Some(10 * GIB_IN_KIB - 1);
    let r = assess_readiness(&s, Role::Active, 0);
    assert!(!r.ready);
    let issues = readiness_issues(&r.checklist);
    assert_eq!(issues, vec!["Low disk space: 9GB free (minimum 10GB)".to_string()]);
    assert!(issues[0].starts_with("Low disk space"));
}

#[test]
fn standby_behind_blocks_the_switch() {
    let mut s = healthy();
    s.probe.sync = Some(SyncStatus::Behind { slots: Some(1200) });
    let r = assess_readiness(&s, Role::Active, 100);
    assert!(!r.ready);
    let failing: Vec<&CheckItem> = r.checklist.iter().filter(|c| !c.passing).collect();
    assert_eq!(failing.len(), 1);
    assert_eq!(check_label(failing[0].check), "Sync Status: Behind (1200 slots)");
    // the node that goes to standby is not held to the sync budget
    assert!(assess_readiness(&s, Role::Standby, 100).ready);
    // within the budget it passes
    assert!(assess_readiness(&s, Role::Active, 1200).ready);
}

#[test]
fn identity_mismatch_blocks_the_switch() {
    let mut s = healthy();
    s.identity_match = Some(false);
    let r = assess_readiness(&s, Role::Standby, 0);
    assert!(!r.ready);
    assert_eq!(
        readiness_issues(&r.checklist),
        vec!["Identity Pubkey mismatch or not verifiable".to_string()]
    );
    s.identity_match = None;
    assert!(!assess_readiness(&s, Role::Standby, 0).ready);
}

#[test]
fn unknown_fields_fold_into_not_ready() {
    let mut s = healthy();
    s.connected = false;
    s.files.as_mut().unwrap().tower_matches = None;
    s.probe.sync = None;
    let r = assess_readiness(&s, Role::Active, 0);
    assert!(!r.ready);
    assert_eq!(
        readiness_issues(&r.checklist),
        vec![
            "Connection failed".to_string(),
            "Tower file missing".to_string(),
            "Sync Status: Unknown".to_string()
        ]
    );
}

#[test]
fn tower_glob_must_match_one_file() {
    let mut s = healthy();
    s.files.as_mut().unwrap().tower_matches = Some(2);
    let r = assess_readiness(&s, Role::Standby, 0);
    assert!(!r.ready);
    assert_eq!(issue_text(Check::TowerFile { matches: Some(2) }), "Tower glob matches 2 files (exactly one needed)");
}

#[test]
fn adding_a_failing_check_keeps_not_ready() {
    let mut s = healthy();
    s.vote_match = Some(false);
    let r = assess_readiness(&s, Role::Standby, 0);
    assert!(!r.ready);
    let mut items = r.checklist.clone();
    items.insert(3, CheckItem { check: Check::Cli, passing: false });
    assert!(items.iter().any(|c| !c.passing));
    let ready_items = assess_readiness(&healthy(), Role::Standby, 0).checklist;
    let mut grown = ready_items.clone();
    grown.push(CheckItem { check: Check::ValidatorProcess, passing: false });
    assert_eq!(readiness_issues(&grown), vec!["Validator process not running".to_string()]);
}

#[test]
fn file_check_output_is_read_line_by_line() {
    let out = "funded_ok\nunfunded_fail\n vote_ok \ntower_count 1\nledger_ok\n 123456789\ncli_fail\nnoise\n";
    let r = parse_swap_readiness_output(out);
    assert_eq!(
        r,
        FileReport {
            funded_identity: Some(true),
            unfunded_identity: Some(false),
            vote_keypair: Some(true),
            tower_matches: Some(1),
            ledger_writable: Some(true),
            cli_executable: Some(false),
            disk_free_kb: Some(123456789),
        }
    );
    let later = parse_swap_readiness_output("funded_fail\nfunded_ok\ntower_count 0\n");
    assert_eq!(later.funded_identity, Some(true));
    assert_eq!(later.tower_matches, Some(0));
}

#[test]
fn checklist_display_lines() {
    assert_eq!(format_swap_checklist(&vec![]), vec!["No swap checks available".to_string()]);
    let lines = format_swap_checklist(&vec![
        CheckItem { check: Check::DiskSpace { free_gb: Some(50) }, passing: true },
        CheckItem { check: Check::Cli, passing: false },
    ]);
    assert_eq!(lines, vec!["  ✅ Disk Space (>10GB)".to_string(), "  ❌ Solana CLI".to_string()]);
}

#[test]
fn failed_file_checks_are_one_issue() {
    let mut s = healthy();
    s.files = None;
    let r = assess_readiness(&s, Role::Standby, 0);
    assert!(!r.ready);
    assert_eq!(r.checklist.len(), 5);
    assert_eq!(readiness_issues(&r.checklist), vec!["Failed to check file readiness".to_string()]);
}
