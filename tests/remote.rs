use validator_switch::config::NodePaths;
use validator_switch::probe::ClientKind;
use validator_switch::remote::{
    address_command, checksum_command, checksums_agree, file_check_command, key_matches, live_key,
    probe_command, resolve_tower, roles_event, save_tower_command, set_identity_command,
    shell_quote, verify_key,
    tower_destination,
    tower_listing_command, with_timeout, TowerError,
};
use validator_switch::switch::{LiveKey, SwitchEvent};

const FUNDED: &str = "Def1111111111111111111111111111111111111uvw";
const UNFUNDED: &str = "Unf1111111111111111111111111111111111111xyz";

fn paths() -> NodePaths {
    NodePaths {
        funded_identity: "/keys/funded.json".to_string(),
        unfunded_identity: "/keys/unfunded.json".to_string(),
        vote_keypair: "/keys/vote.json".to_string(),
        ledger: "/mnt/ledger".to_string(),
        tower: "/mnt/ledger/tower-1_9-*.bin".to_string(),
        solana_cli_path: "/bin/solana".to_string(),
        firedancer_config: None,
        fdctl_path: Some("/opt/fd/fdctl".to_string()),
    }
}

#[test]
fn tower_glob_matching_nothing_is_ambiguous() {
    assert_eq!(resolve_tower(""), Err(TowerError::TowerGlobAmbiguous { matches: 0 }));
    assert_eq!(resolve_tower("\n  \n"), Err(TowerError::TowerGlobAmbiguous { matches: 0 }));
}

#[test]
fn tower_glob_matching_two_files_is_ambiguous() {
    let listing = "/mnt/ledger/tower-1_9-A.bin\n/mnt/ledger/tower-1_9-B.bin\n";
    assert_eq!(resolve_tower(listing), Err(TowerError::TowerGlobAmbiguous { matches: 2 }));
}

#[test]
fn tower_glob_matching_one_file_resolves() {
    assert_eq!(
        resolve_tower("  /mnt/ledger/tower-1_9-A.bin  \n"),
        Ok("/mnt/ledger/tower-1_9-A.bin".to_string())
    );
}

#[test]
fn derived_keys_are_compared_trimmed() {
    assert!(key_matches(&format!("{}\n", FUNDED), FUNDED));
    assert!(!key_matches("Abc1111111111111111111111111111111111111xyz\n", FUNDED));
    assert_eq!(live_key(&format!(" {} ", UNFUNDED), FUNDED, UNFUNDED), LiveKey::Unfunded);
    assert_eq!(live_key(FUNDED, FUNDED, UNFUNDED), LiveKey::Funded);
    assert_eq!(live_key("garbage", FUNDED, UNFUNDED), LiveKey::Other);
}

#[test]
fn roles_are_read_from_live_identities() {
    assert_eq!(
        roles_event(Some(FUNDED), Some(UNFUNDED), FUNDED),
        SwitchEvent::Roles { a_funded: Some(true), b_funded: Some(false) }
    );
    assert_eq!(
        roles_event(None, Some(UNFUNDED), FUNDED),
        SwitchEvent::Roles { a_funded: None, b_funded: Some(false) }
    );
}

#[test]
fn checksums_compare_first_words() {
    assert!(checksums_agree("abc123  /a/tower.bin\n", "abc123  /b/tower.bin"));
    assert!(!checksums_agree("abc123  /a/tower.bin", "abc124  /b/tower.bin"));
    assert!(!checksums_agree("", ""));
}

#[test]
fn commands_are_composed() {
    assert_eq!(address_command("/bin/solana", "/keys/f.json"), "/bin/solana address -k /keys/f.json");
    assert_eq!(tower_listing_command("/l/tower-*.bin"), "ls -1d /l/tower-*.bin 2>/dev/null");
    assert_eq!(checksum_command("/l/t.bin"), "sha256sum /l/t.bin");
    let p = paths();
    assert_eq!(
        set_identity_command(ClientKind::Agave, &p, false),
        "agave-validator -l /mnt/ledger set-identity /keys/unfunded.json"
    );
    assert_eq!(
        set_identity_command(ClientKind::Solana, &p, true),
        "solana-validator -l /mnt/ledger set-identity /keys/funded.json"
    );
    assert_eq!(
        set_identity_command(ClientKind::Firedancer, &p, true),
        "/opt/fd/fdctl set-identity --config firedancer-config.toml /keys/funded.json"
    );
    let probe = probe_command("/mnt/ledger", "/bin/solana");
    assert!(probe.starts_with("echo '=== PROCESSES ===' && ps aux"));
    assert!(probe.contains("df /mnt/ledger | tail -1"));
    assert!(probe.contains("timeout 3 /bin/solana catchup --our-localhost"));
    assert!(probe.ends_with("echo '=== END ==='"));
    let files = file_check_command(&p);
    assert!(files.starts_with("test -r /keys/funded.json && echo funded_ok || echo funded_fail;"));
    assert!(files.contains("echo tower_count $(ls -1d /mnt/ledger/tower-1_9-*.bin 2>/dev/null | wc -l)"));
    assert!(files.ends_with("test -x /bin/solana && echo cli_ok || echo cli_fail"));
}

#[test]
fn tower_keeps_its_file_name() {
    assert_eq!(
        tower_destination("/mnt/a/tower-1_9-XYZ.bin", "/mnt/b"),
        "/mnt/b/tower-1_9-XYZ.bin"
    );
    assert_eq!(tower_destination("tower.bin", "/l"), "/l/tower.bin");
}

#[test]
fn commands_are_quoted_for_the_remote_shell() {
    assert_eq!(shell_quote("echo hi"), "'echo hi'");
    assert_eq!(shell_quote("echo 'a'"), "'echo '\\''a'\\'''");
    assert_eq!(shell_quote(""), "''");
    assert_eq!(with_timeout(30, "ls -1d /x"), "timeout 30 sh -c 'ls -1d /x'");
}

#[test]
fn tower_save_commands() {
    let p = paths();
    assert_eq!(
        save_tower_command(ClientKind::Agave, &p, "/mnt/ledger/tower-1_9-X.bin"),
        "agave-validator -l /mnt/ledger tower --output /mnt/ledger/tower-1_9-X.bin"
    );
    assert_eq!(
        save_tower_command(ClientKind::Firedancer, &p, "/t.bin"),
        "/opt/fd/fdctl tower --config firedancer-config.toml --output /t.bin"
    );
}

#[test]
fn key_verdicts() {
    let ok = verify_key(Some(&format!("{}\n", FUNDED)), FUNDED, "Identity");
    assert_eq!(ok.matches, Some(true));
    assert_eq!(ok.issue, None);
    let bad = verify_key(Some(" Abc\n"), FUNDED, "Identity");
    assert_eq!(bad.matches, Some(false));
    assert_eq!(bad.issue, Some(format!("Identity Pubkey mismatch: expected {}, found Abc", FUNDED)));
    let none = verify_key(None, FUNDED, "Vote");
    assert_eq!(none.matches, None);
    assert_eq!(none.issue, Some("Could not verify Vote Pubkey - failed to read keypair".to_string()));
    assert!(key_matches(&format!("{}\u{a0}", FUNDED), FUNDED));
}
