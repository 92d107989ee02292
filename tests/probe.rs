use validator_switch::probe::{
    agave_version_from_output, firedancer_version_from_output, parse_agave_version,
    parse_batch_output, plain_version_from_output, validator_executable, ClientKind, ProbeReport,
    SyncStatus,
};

const SAMPLE: &str = "=== PROCESSES ===\n\
solana   1234  90.0 40.1 /home/solana/agave/target/release/agave-validator --identity x\n\
=== DISK ===\n\
 67\n\
=== LOAD ===\n\
 0.52\n\
=== SYNC ===\n\
7Np41oeYqPefeNQEHSv1UDhYrehxin3NStELsSKCT4K2 has caught up (us:312345 them:312345)\n\
=== END ===\n";

#[test]
fn batch_output_is_read_section_by_section() {
    let r = parse_batch_output(SAMPLE);
    assert_eq!(
        r,
        ProbeReport {
            validator_running: Some(true),
            client: Some(ClientKind::Agave),
            ledger_disk_used_pct: Some(67),
            load_milli: Some(520),
            sync: Some(SyncStatus::InSync),
        }
    );
}

#[test]
fn same_frame_text_gives_same_report() {
    let copy = SAMPLE.to_string();
    assert_eq!(parse_batch_output(SAMPLE), parse_batch_output(&copy));
}

#[test]
fn missing_sections_stay_absent() {
    let r = parse_batch_output("=== DISK ===\nnot-a-number\n");
    assert_eq!(
        r,
        ProbeReport {
            validator_running: None,
            client: None,
            ledger_disk_used_pct: None,
            load_milli: None,
            sync: None,
        }
    );
    let empty = parse_batch_output("");
    assert_eq!(empty.validator_running, None);
}

#[test]
fn processes_without_validator_read_as_stopped() {
    let r = parse_batch_output(
        "=== PROCESSES ===\nroot 1 grep -Ei solana-validator\n=== DISK ===\n12\n",
    );
    assert_eq!(r.validator_running, Some(false));
    assert_eq!(r.client, None);
    assert_eq!(r.ledger_disk_used_pct, Some(12));
}

#[test]
fn client_kind_follows_the_process_line() {
    let fd = parse_batch_output("=== PROCESSES ===\nsolana 1 /opt/fd/build/native/gcc/bin/fdctl run\n");
    assert_eq!(fd.client, Some(ClientKind::Firedancer));
    let sol = parse_batch_output("=== PROCESSES ===\nsolana 1 solana-validator --ledger x\n");
    assert_eq!(sol.client, Some(ClientKind::Solana));
}

#[test]
fn sync_line_behind_and_timeout() {
    let behind = parse_batch_output(
        "=== SYNC ===\n7Np41oeYqPefeNQEHSv1UDhYrehxin3NStELsSKCT4K2 1200 slot(s) behind (us:1 them:1201)\n",
    );
    assert_eq!(behind.sync, Some(SyncStatus::Behind { slots: Some(1200) }));
    let timeout = parse_batch_output("=== SYNC ===\ntimeout\n=== END ===\n");
    assert_eq!(timeout.sync, Some(SyncStatus::Timeout));
}

#[test]
fn load_average_in_thousandths() {
    let r = parse_batch_output("=== LOAD ===\n12.3456\n");
    assert_eq!(r.load_milli, Some(12_345));
    let r = parse_batch_output("=== LOAD ===\n3\n");
    assert_eq!(r.load_milli, Some(3_000));
    let r = parse_batch_output("=== LOAD ===\n1.2.3\n");
    assert_eq!(r.load_milli, None);
}

#[test]
fn agave_version_labels() {
    assert_eq!(
        parse_agave_version(
            "agave-validator 2.2.16 (src:00000000; feat:3073396398, client:JitoLabs)"
        ),
        "Jito 2.2.16"
    );
    assert_eq!(
        parse_agave_version("agave-validator 2.1.5 (src:4da190bd; feat:288566304, client:Agave)"),
        "Agave 2.1.5"
    );
    assert_eq!(parse_agave_version("agave-validator 2.0.1"), "Agave 2.0.1");
    assert_eq!(parse_agave_version("client:JitoLabs"), "Jito");
    assert_eq!(parse_agave_version("solana-cli 1.18.0"), "solana-cli 1.18.0");
    assert_eq!(
        agave_version_from_output("  agave-validator 2.1.5 (client:Agave)\nmore\n"),
        Some("Agave 2.1.5".to_string())
    );
    assert_eq!(agave_version_from_output("   \n"), None);
}

#[test]
fn firedancer_version_label() {
    assert_eq!(
        firedancer_version_from_output("fdctl\n0.505.20216 (44f9f393d167138abe1c819f7424990a56e1913e)\n"),
        Some("Firedancer 0.505.20216".to_string())
    );
    assert_eq!(firedancer_version_from_output("no version here\n"), None);
}

#[test]
fn executable_is_found_in_process_listing() {
    let ps = "solana 99 0.0 grep agave\n\
solana 1234 95.0 /home/sol/agave/target/release/agave-validator --ledger /mnt/ledger\n";
    assert_eq!(
        validator_executable(ps),
        Some((ClientKind::Agave, "/home/sol/agave/target/release/agave-validator".to_string()))
    );
    let fd = "solana 7 /home/sol/firedancer/build/native/gcc/bin/fdctl run --config x.toml\n";
    assert_eq!(
        validator_executable(fd),
        Some((
            ClientKind::Firedancer,
            "/home/sol/firedancer/build/native/gcc/bin/fdctl".to_string()
        ))
    );
    assert_eq!(validator_executable("solana 1 solana-validator --ledger x\n"), None);
}

#[test]
fn disk_percentage_outside_range_is_malformed() {
    assert_eq!(parse_batch_output("=== DISK ===\n150\n").ledger_disk_used_pct, None);
    assert_eq!(parse_batch_output("=== DISK ===\n100\n").ledger_disk_used_pct, Some(100));
    assert_eq!(parse_batch_output("=== DISK ===\n0\n").ledger_disk_used_pct, Some(0));
    assert_eq!(parse_batch_output("=== DISK ===\n-3\n").ledger_disk_used_pct, None);
}

#[test]
fn blank_sync_line_reports_nothing() {
    assert_eq!(parse_batch_output("=== SYNC ===\n   \n=== END ===\n").sync, None);
    assert_eq!(parse_batch_output("=== SYNC ===\n=== END ===\n").sync, None);
}

#[test]
fn unicode_blanks_are_trimmed() {
    assert_eq!(parse_batch_output("=== DISK ===\n\u{a0}42\u{3000}\n").ledger_disk_used_pct, Some(42));
}

#[test]
fn plain_version_is_the_first_line() {
    assert_eq!(
        plain_version_from_output("  solana-validator 1.18.26 (src:devbuild)\nx\n"),
        Some("solana-validator 1.18.26 (src:devbuild)".to_string())
    );
    assert_eq!(plain_version_from_output(""), None);
}
