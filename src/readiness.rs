use vstd::prelude::*;
use crate::probe::{ProbeReport, SyncStatus};
use crate::text::{
    chars_of, decimal, decimal_text, lines_of, parse_u64, parse_u64_chars, same_chars, text_lines,
    trim, trim_chars, views, words, words_of,
};

verus! {

/// Free space that the ledger mount must keep, in GiB.
pub const MIN_FREE_GIB: u64 = 10;

/// What the file-check frames of a node report; `None` where no line said.
#[derive(Clone, Copy, Debug, PartialEq, Eq, Structural)]
pub struct FileReport {
    pub funded_identity: Option<bool>,
    pub unfunded_identity: Option<bool>,
    pub vote_keypair: Option<bool>,
    /// How many files the tower glob matched.
    pub tower_matches: Option<u64>,
    pub ledger_writable: Option<bool>,
    pub cli_executable: Option<bool>,
    /// Space left on the ledger mount, in KiB.
    pub disk_free_kb: Option<u64>,
}

pub open spec fn empty_file_report() -> FileReport {
    FileReport {
        funded_identity: None,
        unfunded_identity: None,
        vote_keypair: None,
        tower_matches: None,
        ledger_writable: None,
        cli_executable: None,
        disk_free_kb: None,
    }
}

/// What one trimmed line of file-check output changes in the report.
pub open spec fn apply_file_line(r: FileReport, t: Seq<char>) -> FileReport {
    if t == "funded_ok"@ {
        FileReport { funded_identity: Some(true), ..r }
    } else if t == "funded_fail"@ {
        FileReport { funded_identity: Some(false), ..r }
    } else if t == "unfunded_ok"@ {
        FileReport { unfunded_identity: Some(true), ..r }
    } else if t == "unfunded_fail"@ {
        FileReport { unfunded_identity: Some(false), ..r }
    } else if t == "vote_ok"@ {
        FileReport { vote_keypair: Some(true), ..r }
    } else if t == "vote_fail"@ {
        FileReport { vote_keypair: Some(false), ..r }
    } else if t == "ledger_ok"@ {
        FileReport { ledger_writable: Some(true), ..r }
    } else if t == "ledger_fail"@ {
        FileReport { ledger_writable: Some(false), ..r }
    } else if t == "cli_ok"@ {
        FileReport { cli_executable: Some(true), ..r }
    } else if t == "cli_fail"@ {
        FileReport { cli_executable: Some(false), ..r }
    } else if words(t).len() == 2 && words(t)[0] == "tower_count"@ {
        FileReport { tower_matches: parse_u64(words(t)[1]), ..r }
    } else if parse_u64(t) is Some {
        FileReport { disk_free_kb: parse_u64(t), ..r }
    } else {
        r
    }
}

/// The report that the lines `ls` give, a later line overriding an earlier one.
pub open spec fn file_report_of(ls: Seq<Seq<char>>) -> FileReport
    decreases ls.len(),
{
    if ls.len() == 0 {
        empty_file_report()
    } else {
        apply_file_line(file_report_of(ls.drop_last()), trim(ls.last()))
    }
}

fn is_text(t: &Vec<char>, word: &str) -> (r: bool)
    ensures
        r == (t@ == word@),
{
    let w = chars_of(word);
    same_chars(t, &w)
}

fn apply_line(r: FileReport, t: &Vec<char>) -> (out: FileReport)
    ensures
        out == apply_file_line(r, t@),
{
    if is_text(t, "funded_ok") {
        FileReport { funded_identity: Some(true), ..r }
    } else if is_text(t, "funded_fail") {
        FileReport { funded_identity: Some(false), ..r }
    } else if is_text(t, "unfunded_ok") {
        FileReport { unfunded_identity: Some(true), ..r }
    } else if is_text(t, "unfunded_fail") {
        FileReport { unfunded_identity: Some(false), ..r }
    } else if is_text(t, "vote_ok") {
        FileReport { vote_keypair: Some(true), ..r }
    } else if is_text(t, "vote_fail") {
        FileReport { vote_keypair: Some(false), ..r }
    } else if is_text(t, "ledger_ok") {
        FileReport { ledger_writable: Some(true), ..r }
    } else if is_text(t, "ledger_fail") {
        FileReport { ledger_writable: Some(false), ..r }
    } else if is_text(t, "cli_ok") {
        FileReport { cli_executable: Some(true), ..r }
    } else if is_text(t, "cli_fail") {
        FileReport { cli_executable: Some(false), ..r }
    } else {
        let ws = words_of(t);
        assert(ws@.len() == 2 ==> ws@[0]@ == words(t@)[0] && ws@[1]@ == words(t@)[1]);
        if ws.len() == 2 && is_text(&ws[0], "tower_count") {
            FileReport { tower_matches: parse_u64_chars(&ws[1]), ..r }
        } else {
            match parse_u64_chars(t) {
                Some(v) => FileReport { disk_free_kb: Some(v), ..r },
                None => r,
            }
        }
    }
}

/// Reads the output of a node's file checks, as `file_report_of` its lines states.
pub fn parse_swap_readiness_output(output: &str) -> (r: FileReport)
    ensures
        r == file_report_of(text_lines(output@)),
{
    let cs = chars_of(output);
    let ls = lines_of(&cs);
    let ghost lv = views(ls@);
    let mut r = FileReport {
        funded_identity: None,
        unfunded_identity: None,
        vote_keypair: None,
        tower_matches: None,
        ledger_writable: None,
        cli_executable: None,
        disk_free_kb: None,
    };
    let mut i: usize = 0;
    while i < ls.len()
        invariant
            i <= ls.len(),
            lv == views(ls@),
            r == file_report_of(lv.take(i as int)),
        decreases ls.len() - i,
    {
        let t = trim_chars(&ls[i]);
        assert(lv.take(i + 1).drop_last() =~= lv.take(i as int));
        assert(lv.take(i + 1).last() == ls@[i as int]@);
        r = apply_line(r, &t);
        i = i + 1;
    }
    assert(lv.take(ls.len() as int) =~= lv);
    r
}

/// The part a node is to play once the switch is done.
#[derive(Clone, Copy, Debug, PartialEq, Eq, Structural)]
pub enum Role {
    Active,
    Standby,
}

/// Everything known of a node before a switch; a field is `None` when it could not be
/// checked.
#[derive(Clone, Copy, Debug, PartialEq, Eq, Structural)]
pub struct NodeSnapshot {
    pub connected: bool,
    pub probe: ProbeReport,
    /// The file checks, or `None` when they could not be run.
    pub files: Option<FileReport>,
    /// Whether the funded identity file derives to the declared identity key.
    pub identity_match: Option<bool>,
    /// Whether the vote keypair file derives to the declared vote key.
    pub vote_match: Option<bool>,
}

impl NodeSnapshot {
    /// The snapshot of a node that could not be reached: nothing is known of it.
    pub fn connection_failed() -> (r: NodeSnapshot)
        ensures
            !r.connected,
            r.probe == (ProbeReport {
                validator_running: None,
                client: None,
                ledger_disk_used_pct: None,
                load_milli: None,
                sync: None,
            }),
            r.files is None,
            r.identity_match is None,
            r.vote_match is None,
    {
        NodeSnapshot {
            connected: false,
            probe: ProbeReport {
                validator_running: None,
                client: None,
                ledger_disk_used_pct: None,
                load_milli: None,
                sync: None,
            },
            files: None,
            identity_match: None,
            vote_match: None,
        }
    }
}

/// One rule of switch readiness, with what was observed for it.
#[derive(Clone, Copy, Debug, PartialEq, Eq, Structural)]
pub enum Check {
    Connection,
    /// The file checks as a whole, when they could not be run.
    FileChecks,
    FundedIdentity,
    IdentityMatch,
    VoteKeypair,
    VoteMatch,
    UnfundedIdentity,
    TowerFile { matches: Option<u64> },
    LedgerDirectory,
    Cli,
    DiskSpace { free_gb: Option<u64> },
    ValidatorProcess,
    Sync { status: Option<SyncStatus> },
}

#[derive(Clone, Copy, Debug, PartialEq, Eq, Structural)]
pub struct CheckItem {
    pub check: Check,
    pub passing: bool,
}

/// The verdict on a node, with the checklist it rests on.
pub struct Readiness {
    pub ready: bool,
    pub checklist: Vec<CheckItem>,
}

/// Every check of a checklist passes.
pub open spec fn all_pass(items: Seq<CheckItem>) -> bool {
    forall|i: int| 0 <= i < items.len() ==> #[trigger] items[i].passing
}

pub open spec fn is_true(o: Option<bool>) -> bool {
    o == Some(true)
}

/// Whole GiB in `kb` KiB.
pub open spec fn free_gib(kb: u64) -> u64 {
    kb / 1024 / 1024
}

pub open spec fn disk_ok(kb: Option<u64>) -> bool {
    match kb {
        Some(k) => free_gib(k) >= MIN_FREE_GIB,
        None => false,
    }
}

/// In sync, or behind by a known count of at most `budget` slots.
pub open spec fn sync_ok(s: Option<SyncStatus>, budget: u64) -> bool {
    match s {
        Some(SyncStatus::InSync) => true,
        Some(SyncStatus::Behind { slots: Some(n) }) => n <= budget,
        _ => false,
    }
}

pub open spec fn disk_check(kb: Option<u64>) -> CheckItem {
    CheckItem {
        check: Check::DiskSpace {
            free_gb: match kb {
                Some(k) => Some(free_gib(k)),
                None => None,
            },
        },
        passing: disk_ok(kb),
    }
}

/// Checks on the files of a node; a single failing item when they could not be run.
pub open spec fn file_checks(files: Option<FileReport>) -> Seq<CheckItem> {
    match files {
        Some(f) => seq![
            CheckItem { check: Check::FundedIdentity, passing: is_true(f.funded_identity) },
            CheckItem { check: Check::VoteKeypair, passing: is_true(f.vote_keypair) },
            CheckItem { check: Check::UnfundedIdentity, passing: is_true(f.unfunded_identity) },
            CheckItem {
                check: Check::TowerFile { matches: f.tower_matches },
                passing: f.tower_matches == Some(1u64),
            },
            CheckItem { check: Check::LedgerDirectory, passing: is_true(f.ledger_writable) },
            CheckItem { check: Check::Cli, passing: is_true(f.cli_executable) },
            disk_check(f.disk_free_kb),
        ],
        None => seq![CheckItem { check: Check::FileChecks, passing: false }],
    }
}

/// Checks on the keys the node derives and on its validator process.
pub open spec fn node_checks(s: NodeSnapshot) -> Seq<CheckItem> {
    seq![
        CheckItem { check: Check::IdentityMatch, passing: is_true(s.identity_match) },
        CheckItem { check: Check::VoteMatch, passing: is_true(s.vote_match) },
        CheckItem {
            check: Check::ValidatorProcess,
            passing: is_true(s.probe.validator_running),
        },
    ]
}

/// The checklist of a node that is to take `role` after the switch, in order.
pub open spec fn readiness_checklist(s: NodeSnapshot, role: Role, budget: u64) -> Seq<CheckItem> {
    let common = seq![CheckItem { check: Check::Connection, passing: s.connected }] + file_checks(
        s.files,
    ) + node_checks(s);
    match role {
        Role::Active => common.push(
            CheckItem {
                check: Check::Sync { status: s.probe.sync },
                passing: sync_ok(s.probe.sync, budget),
            },
        ),
        Role::Standby => common,
    }
}

/// Whole GiB in `kb` KiB.
pub fn gib_of(kb: u64) -> (r: u64)
    ensures
        r == free_gib(kb),
{
    kb / 1024 / 1024
}

fn is_yes(o: Option<bool>) -> (r: bool)
    ensures
        r == is_true(o),
{
    match o {
        Some(b) => b,
        None => false,
    }
}

/// Whether a node may take part in a switch as `role_after`: every check of its
/// checklist must pass. A node to become active must also be in sync, or behind by at
/// most `max_behind_slots`.
pub fn assess_readiness(snap: &NodeSnapshot, role_after: Role, max_behind_slots: u64) -> (r:
    Readiness)
    ensures
        r.checklist@ == readiness_checklist(*snap, role_after, max_behind_slots),
        r.ready == all_pass(r.checklist@),
{
    let items = checklist_of(snap, role_after, max_behind_slots);
    let ready = all_passing(&items);
    Readiness { ready, checklist: items }
}

/// Whether every check of `items` passes.
pub fn all_passing(items: &Vec<CheckItem>) -> (r: bool)
    ensures
        r == all_pass(items@),
{
    let mut ready = true;
    let mut i: usize = 0;
    while i < items.len()
        invariant
            i <= items.len(),
            ready == all_pass(items@.take(i as int)),
        decreases items.len() - i,
    {
        if !items[i].passing {
            ready = false;
        }
        assert(items@.take(i + 1)[i as int] == items@[i as int]);
        assert(forall|k: int| 0 <= k < i ==> items@.take(i + 1)[k] == items@.take(i as int)[k]);
        i = i + 1;
    }
    assert(items@.take(items.len() as int) =~= items@);
    ready
}

fn disk_item(kb: Option<u64>) -> (r: CheckItem)
    ensures
        r == disk_check(kb),
{
    match kb {
        Some(k) => {
            let g = gib_of(k);
            CheckItem { check: Check::DiskSpace { free_gb: Some(g) }, passing: g >= MIN_FREE_GIB }
        },
        None => CheckItem { check: Check::DiskSpace { free_gb: None }, passing: false },
    }
}

fn file_items(files: Option<FileReport>) -> (r: Vec<CheckItem>)
    ensures
        r@ == file_checks(files),
{
    match files {
        Some(f) => {
            let one_tower = match f.tower_matches {
                Some(n) => n == 1,
                None => false,
            };
            let r = vec![
                CheckItem { check: Check::FundedIdentity, passing: is_yes(f.funded_identity) },
                CheckItem { check: Check::VoteKeypair, passing: is_yes(f.vote_keypair) },
                CheckItem { check: Check::UnfundedIdentity, passing: is_yes(f.unfunded_identity) },
                CheckItem { check: Check::TowerFile { matches: f.tower_matches }, passing: one_tower },
                CheckItem { check: Check::LedgerDirectory, passing: is_yes(f.ledger_writable) },
                CheckItem { check: Check::Cli, passing: is_yes(f.cli_executable) },
                disk_item(f.disk_free_kb),
            ];
            assert(r@ =~= file_checks(files));
            r
        },
        None => {
            let r = vec![CheckItem { check: Check::FileChecks, passing: false }];
            assert(r@ =~= file_checks(files));
            r
        },
    }
}

fn node_items(snap: &NodeSnapshot) -> (r: Vec<CheckItem>)
    ensures
        r@ == node_checks(*snap),
{
    let r = vec![
        CheckItem { check: Check::IdentityMatch, passing: is_yes(snap.identity_match) },
        CheckItem { check: Check::VoteMatch, passing: is_yes(snap.vote_match) },
        CheckItem { check: Check::ValidatorProcess, passing: is_yes(snap.probe.validator_running) },
    ];
    assert(r@ =~= node_checks(*snap));
    r
}

fn checklist_of(snap: &NodeSnapshot, role_after: Role, max_behind_slots: u64) -> (r: Vec<CheckItem>)
    ensures
        r@ == readiness_checklist(*snap, role_after, max_behind_slots),
{
    let mut items = vec![CheckItem { check: Check::Connection, passing: snap.connected }];
    let mut files = file_items(snap.files);
    items.append(&mut files);
    let mut node = node_items(snap);
    items.append(&mut node);
    assert(items@ =~= seq![CheckItem { check: Check::Connection, passing: snap.connected }]
        + file_checks(snap.files) + node_checks(*snap));
    if let Role::Active = role_after {
        let sync_pass = match snap.probe.sync {
            Some(SyncStatus::InSync) => true,
            Some(SyncStatus::Behind { slots: Some(n) }) => n <= max_behind_slots,
            _ => false,
        };
        items.push(CheckItem { check: Check::Sync { status: snap.probe.sync }, passing: sync_pass });
    }
    items
}

/// Adding a failing check to a checklist leaves it failing, wherever the check goes;
/// adding any check to a failing checklist leaves it failing.
pub proof fn lemma_failing_check_blocks(items: Seq<CheckItem>, extra: CheckItem, pos: int)
    requires
        0 <= pos <= items.len(),
    ensures
        !extra.passing ==> !all_pass(items.insert(pos, extra)),
        !all_pass(items) ==> !all_pass(items.insert(pos, extra)),
{
    let grown = items.insert(pos, extra);
    assert(grown[pos] == extra);
    if !all_pass(items) {
        let k = choose|k: int| 0 <= k < items.len() && !items[k].passing;
        if k < pos {
            assert(grown[k] == items[k]);
        } else {
            assert(grown[k + 1] == items[k]);
        }
    }
}

pub open spec fn sync_text(s: Option<SyncStatus>) -> Seq<char> {
    match s {
        Some(SyncStatus::InSync) => "In Sync"@,
        Some(SyncStatus::Behind { slots: Some(n) }) => "Behind ("@ + decimal(n as nat) + " slots)"@,
        Some(SyncStatus::Behind { slots: None }) => "Behind"@,
        Some(SyncStatus::Timeout) => "Timeout"@,
        None => "Unknown"@,
    }
}

/// The checklist label of a check.
pub open spec fn check_label_text(c: Check) -> Seq<char> {
    match c {
        Check::Connection => "Connection"@,
        Check::FileChecks => "File Checks"@,
        Check::FundedIdentity => "Funded Identity"@,
        Check::IdentityMatch => "Identity Pubkey"@,
        Check::VoteKeypair => "Vote Keypair"@,
        Check::VoteMatch => "Vote Pubkey"@,
        Check::UnfundedIdentity => "Unfunded Identity"@,
        Check::TowerFile { .. } => "Tower File"@,
        Check::LedgerDirectory => "Ledger Directory"@,
        Check::Cli => "Solana CLI"@,
        Check::DiskSpace { .. } => "Disk Space (>10GB)"@,
        Check::ValidatorProcess => "Validator Process"@,
        Check::Sync { status } => "Sync Status: "@ + sync_text(status),
    }
}

/// What an operator is told when a check fails.
pub open spec fn issue_text_of(c: Check) -> Seq<char> {
    match c {
        Check::Connection => "Connection failed"@,
        Check::FileChecks => "Failed to check file readiness"@,
        Check::FundedIdentity => "Funded identity keypair missing or not readable"@,
        Check::IdentityMatch => "Identity Pubkey mismatch or not verifiable"@,
        Check::VoteKeypair => "Vote keypair missing or not readable"@,
        Check::VoteMatch => "Vote Pubkey mismatch or not verifiable"@,
        Check::UnfundedIdentity => "Unfunded identity keypair missing or not readable"@,
        Check::TowerFile { matches } => match matches {
            Some(n) => "Tower glob matches "@ + decimal(n as nat) + " files (exactly one needed)"@,
            None => "Tower file missing"@,
        },
        Check::LedgerDirectory => "Ledger directory missing or not writable"@,
        Check::Cli => "Solana CLI not executable"@,
        Check::DiskSpace { free_gb } => match free_gb {
            Some(g) => "Low disk space: "@ + decimal(g as nat) + "GB free (minimum 10GB)"@,
            None => "Disk space unknown"@,
        },
        Check::ValidatorProcess => "Validator process not running"@,
        Check::Sync { status } => "Sync Status: "@ + sync_text(status),
    }
}

/// How far a node trails, in words.
pub fn sync_status_label(s: Option<SyncStatus>) -> (r: String)
    ensures
        r@ == sync_text(s),
{
    match s {
        Some(SyncStatus::InSync) => String::from_str("In Sync"),
        Some(SyncStatus::Behind { slots: Some(n) }) => {
            let mut r = String::from_str("Behind (");
            let d = decimal_text(n);
            r.append(d.as_str());
            r.append(" slots)");
            r
        },
        Some(SyncStatus::Behind { slots: None }) => String::from_str("Behind"),
        Some(SyncStatus::Timeout) => String::from_str("Timeout"),
        None => String::from_str("Unknown"),
    }
}

/// The checklist label of a check.
pub fn check_label(c: Check) -> (r: String)
    ensures
        r@ == check_label_text(c),
{
    match c {
        Check::Connection => String::from_str("Connection"),
        Check::FileChecks => String::from_str("File Checks"),
        Check::FundedIdentity => String::from_str("Funded Identity"),
        Check::IdentityMatch => String::from_str("Identity Pubkey"),
        Check::VoteKeypair => String::from_str("Vote Keypair"),
        Check::VoteMatch => String::from_str("Vote Pubkey"),
        Check::UnfundedIdentity => String::from_str("Unfunded Identity"),
        Check::TowerFile { .. } => String::from_str("Tower File"),
        Check::LedgerDirectory => String::from_str("Ledger Directory"),
        Check::Cli => String::from_str("Solana CLI"),
        Check::DiskSpace { .. } => String::from_str("Disk Space (>10GB)"),
        Check::ValidatorProcess => String::from_str("Validator Process"),
        Check::Sync { status } => {
            let mut r = String::from_str("Sync Status: ");
            let t = sync_status_label(status);
            r.append(t.as_str());
            r
        },
    }
}

/// What an operator is told when check `c` fails.
pub fn issue_text(c: Check) -> (r: String)
    ensures
        r@ == issue_text_of(c),
{
    match c {
        Check::Connection => String::from_str("Connection failed"),
        Check::FileChecks => String::from_str("Failed to check file readiness"),
        Check::FundedIdentity => String::from_str("Funded identity keypair missing or not readable"),
        Check::IdentityMatch => String::from_str("Identity Pubkey mismatch or not verifiable"),
        Check::VoteKeypair => String::from_str("Vote keypair missing or not readable"),
        Check::VoteMatch => String::from_str("Vote Pubkey mismatch or not verifiable"),
        Check::UnfundedIdentity => String::from_str(
            "Unfunded identity keypair missing or not readable",
        ),
        Check::TowerFile { matches } => match matches {
            Some(n) => {
                let mut r = String::from_str("Tower glob matches ");
                let d = decimal_text(n);
                r.append(d.as_str());
                r.append(" files (exactly one needed)");
                r
            },
            None => String::from_str("Tower file missing"),
        },
        Check::LedgerDirectory => String::from_str("Ledger directory missing or not writable"),
        Check::Cli => String::from_str("Solana CLI not executable"),
        Check::DiskSpace { free_gb } => match free_gb {
            Some(g) => {
                let mut r = String::from_str("Low disk space: ");
                let d = decimal_text(g);
                r.append(d.as_str());
                r.append("GB free (minimum 10GB)");
                r
            },
            None => String::from_str("Disk space unknown"),
        },
        Check::ValidatorProcess => String::from_str("Validator process not running"),
        Check::Sync { status } => {
            let mut r = String::from_str("Sync Status: ");
            let t = sync_status_label(status);
            r.append(t.as_str());
            r
        },
    }
}

/// One display line of a checklist item: a mark, then the label.
pub open spec fn checklist_line_text(item: CheckItem) -> Seq<char> {
    "  "@ + (if item.passing {
        "✅"@
    } else {
        "❌"@
    }) + " "@ + check_label_text(item.check)
}

/// The display lines of a checklist; a placeholder line when it is empty.
pub fn format_swap_checklist(items: &Vec<CheckItem>) -> (r: Vec<String>)
    ensures
        items@.len() == 0 ==> r@.len() == 1 && r@[0]@ == "No swap checks available"@,
        items@.len() > 0 ==> r@.len() == items@.len() && forall|i: int|
            0 <= i < items@.len() ==> #[trigger] r@[i]@ == checklist_line_text(items@[i]),
{
    let mut r: Vec<String> = Vec::new();
    if items.len() == 0 {
        r.push(String::from_str("No swap checks available"));
        return r;
    }
    let mut i: usize = 0;
    while i < items.len()
        invariant
            i <= items.len(),
            r@.len() == i,
            forall|k: int| 0 <= k < i ==> #[trigger] r@[k]@ == checklist_line_text(items@[k]),
        decreases items.len() - i,
    {
        let item = items[i];
        let mut line = String::from_str("  ");
        if item.passing {
            line.append("✅");
        } else {
            line.append("❌");
        }
        line.append(" ");
        let label = check_label(item.check);
        line.append(label.as_str());
        r.push(line);
        i = i + 1;
    }
    r
}

/// The issues of the failing checks, in checklist order.
pub open spec fn issues_of(items: Seq<CheckItem>) -> Seq<Seq<char>>
    decreases items.len(),
{
    if items.len() == 0 {
        Seq::empty()
    } else if items.last().passing {
        issues_of(items.drop_last())
    } else {
        issues_of(items.drop_last()).push(issue_text_of(items.last().check))
    }
}

/// The issues of the failing checks of a checklist, in order.
pub fn readiness_issues(items: &Vec<CheckItem>) -> (r: Vec<String>)
    ensures
        r@.map_values(|s: String| s@) == issues_of(items@),
{
    let mut r: Vec<String> = Vec::new();
    let mut i: usize = 0;
    while i < items.len()
        invariant
            i <= items.len(),
            r@.map_values(|s: String| s@) == issues_of(items@.take(i as int)),
        decreases items.len() - i,
    {
        assert(items@.take(i + 1).drop_last() =~= items@.take(i as int));
        if !items[i].passing {
            let t = issue_text(items[i].check);
            r.push(t);
        }
        assert(r@.map_values(|s: String| s@) =~= issues_of(items@.take(i + 1)));
        i = i + 1;
    }
    assert(items@.take(items.len() as int) =~= items@);
    r
}

} // verus!
