use vstd::prelude::*;
use crate::config::NodePaths;
use crate::probe::ClientKind;
use crate::switch::{LiveKey, SwitchEvent};
use crate::text::{
    chars_of, decimal, decimal_text, lines_of, push_char, same_chars, string_of, text_lines, trim,
    trim_chars, views, words, words_of,
};

verus! {

/// Why a tower transfer cannot start.
#[derive(Clone, Copy, Debug, PartialEq, Eq, Structural)]
pub enum TowerError {
    /// The tower glob did not match exactly one file.
    TowerGlobAmbiguous { matches: usize },
}

/// Whether the output of a key derivation names `expected`.
pub open spec fn names_key(output: Seq<char>, expected: Seq<char>) -> bool {
    trim(output) == expected
}

/// The key that a node's identity read-back shows.
pub open spec fn live_key_of(output: Seq<char>, funded: Seq<char>, unfunded: Seq<char>) -> LiveKey {
    if names_key(output, funded) {
        LiveKey::Funded
    } else if names_key(output, unfunded) {
        LiveKey::Unfunded
    } else {
        LiveKey::Other
    }
}

pub open spec fn funded_reading(output: Option<Seq<char>>, identity: Seq<char>) -> Option<bool> {
    match output {
        Some(o) => Some(names_key(o, identity)),
        None => None,
    }
}

/// The paths that a listing names, one per non-blank line, trimmed.
pub open spec fn listed_paths(ls: Seq<Seq<char>>) -> Seq<Seq<char>>
    decreases ls.len(),
{
    if ls.len() == 0 {
        Seq::empty()
    } else if trim(ls.last()).len() > 0 {
        listed_paths(ls.drop_last()).push(trim(ls.last()))
    } else {
        listed_paths(ls.drop_last())
    }
}

/// The one tower file that a glob listing names, or how many it named.
pub open spec fn tower_of(listing: Seq<char>) -> Result<Seq<char>, TowerError> {
    let paths = listed_paths(text_lines(listing));
    if paths.len() == 1 {
        Ok(paths[0])
    } else {
        Err(TowerError::TowerGlobAmbiguous { matches: paths.len() as usize })
    }
}

/// Two checksum outputs agree on their first word.
pub open spec fn sums_agree(src: Seq<char>, dst: Seq<char>) -> bool {
    words(src).len() > 0 && words(dst).len() > 0 && words(src)[0] == words(dst)[0]
}

/// Whether the trimmed output of a key derivation equals `expected`.
pub fn key_matches(output: &str, expected: &str) -> (r: bool)
    ensures
        r == names_key(output@, expected@),
{
    let o = chars_of(output);
    let t = trim_chars(&o);
    let e = chars_of(expected);
    same_chars(&t, &e)
}

/// The key that a node's identity read-back shows.
pub fn live_key(output: &str, funded_pubkey: &str, unfunded_pubkey: &str) -> (r: LiveKey)
    ensures
        r == live_key_of(output@, funded_pubkey@, unfunded_pubkey@),
{
    if key_matches(output, funded_pubkey) {
        LiveKey::Funded
    } else if key_matches(output, unfunded_pubkey) {
        LiveKey::Unfunded
    } else {
        LiveKey::Other
    }
}

/// The role report of a pair from the live identity read on each node (`None` where the
/// read failed), compared with the funded `identity_pubkey`.
pub fn roles_event(a_output: Option<&str>, b_output: Option<&str>, identity_pubkey: &str) -> (r:
    SwitchEvent)
    ensures
        r == (SwitchEvent::Roles {
            a_funded: funded_reading(
                match a_output {
                    Some(o) => Some(o@),
                    None => None,
                },
                identity_pubkey@,
            ),
            b_funded: funded_reading(
                match b_output {
                    Some(o) => Some(o@),
                    None => None,
                },
                identity_pubkey@,
            ),
        }),
{
    let a = match a_output {
        Some(o) => Some(key_matches(o, identity_pubkey)),
        None => None,
    };
    let b = match b_output {
        Some(o) => Some(key_matches(o, identity_pubkey)),
        None => None,
    };
    SwitchEvent::Roles { a_funded: a, b_funded: b }
}

/// The one tower file that the listing of a tower glob names; zero or several matches
/// are refused.
pub fn resolve_tower(listing: &str) -> (r: Result<String, TowerError>)
    ensures
        match r {
            Ok(p) => tower_of(listing@) == Ok::<Seq<char>, TowerError>(p@),
            Err(e) => tower_of(listing@) == Err::<Seq<char>, TowerError>(e),
        },
{
    let cs = chars_of(listing);
    let ls = lines_of(&cs);
    let ghost lv = views(ls@);
    let mut paths: Vec<Vec<char>> = Vec::new();
    let mut i: usize = 0;
    while i < ls.len()
        invariant
            i <= ls.len(),
            lv == views(ls@),
            views(paths@) == listed_paths(lv.take(i as int)),
            paths@.len() <= i,
        decreases ls.len() - i,
    {
        let t = trim_chars(&ls[i]);
        assert(lv.take(i + 1).drop_last() =~= lv.take(i as int));
        assert(lv.take(i + 1).last() == ls@[i as int]@);
        if t.len() > 0 {
            paths.push(t);
            assert(views(paths@) =~= listed_paths(lv.take(i + 1)));
        }
        i = i + 1;
    }
    assert(lv.take(ls.len() as int) =~= lv);
    if paths.len() == 1 {
        assert(views(paths@)[0] == paths@[0]@);
        Ok(string_of(&paths[0]))
    } else {
        Err(TowerError::TowerGlobAmbiguous { matches: paths.len() })
    }
}

/// Whether the checksums taken before and after a tower copy agree.
pub fn checksums_agree(src_output: &str, dst_output: &str) -> (r: bool)
    ensures
        r == sums_agree(src_output@, dst_output@),
{
    let s = chars_of(src_output);
    let d = chars_of(dst_output);
    let sw = words_of(&s);
    let dw = words_of(&d);
    if sw.len() == 0 || dw.len() == 0 {
        return false;
    }
    assert(views(sw@)[0] == sw@[0]@);
    assert(views(dw@)[0] == dw@[0]@);
    same_chars(&sw[0], &dw[0])
}

/// The command that prints the public key of the keypair file `keyfile`.
pub open spec fn address_command_text(cli: Seq<char>, keyfile: Seq<char>) -> Seq<char> {
    cli + " address -k "@ + keyfile
}

/// The batched probe: frames `PROCESSES`, `DISK`, `LOAD` and `SYNC`, closed by `END`.
pub open spec fn probe_command_text(ledger: Seq<char>, cli: Seq<char>) -> Seq<char> {
    "echo '=== PROCESSES ===' && ps aux | grep -Ei 'solana-validator|agave|fdctl|firedancer' | grep -v grep; echo '=== DISK ===' && df "@
        + ledger
        + " | tail -1 | awk '{print $5}' | sed 's/%//'; echo '=== LOAD ===' && uptime | awk -F'load average:' '{print $2}' | awk '{print $1}' | sed 's/,//'; echo '=== SYNC ===' && timeout 3 "@
        + cli + " catchup --our-localhost 2>/dev/null || echo 'timeout'; echo '=== END ==='"@
}

/// The file checks, one verdict line per file, the tower match count and the free KiB.
pub open spec fn file_check_command_text(p: NodePaths) -> Seq<char> {
    "test -r "@ + p.funded_identity@ + " && echo funded_ok || echo funded_fail; test -r "@
        + p.unfunded_identity@ + " && echo unfunded_ok || echo unfunded_fail; test -r "@
        + p.vote_keypair@ + " && echo vote_ok || echo vote_fail; echo tower_count $(ls -1d "@
        + p.tower@ + " 2>/dev/null | wc -l); test -d "@ + p.ledger@ + " && test -w "@
        + p.ledger@ + " && echo ledger_ok || echo ledger_fail; df "@ + p.ledger@
        + " | tail -1 | awk '{print $4}'; test -x "@ + p.solana_cli_path@
        + " && echo cli_ok || echo cli_fail"@
}

/// The command that lists the files a tower glob matches, one per line.
pub open spec fn tower_listing_command_text(glob: Seq<char>) -> Seq<char> {
    "ls -1d "@ + glob + " 2>/dev/null"@
}

/// The command that prints the checksum of a file.
pub open spec fn checksum_command_text(path: Seq<char>) -> Seq<char> {
    "sha256sum "@ + path
}

/// The keypair file a node switches to.
pub open spec fn identity_file(p: NodePaths, funded: bool) -> Seq<char> {
    if funded {
        p.funded_identity@
    } else {
        p.unfunded_identity@
    }
}

/// The Firedancer control binary, `fdctl` unless configured.
pub open spec fn fdctl_of(p: NodePaths) -> Seq<char> {
    match p.fdctl_path {
        Some(f) => f@,
        None => "fdctl"@,
    }
}

/// The Firedancer configuration file, `firedancer-config.toml` unless configured.
pub open spec fn fd_config_of(p: NodePaths) -> Seq<char> {
    match p.firedancer_config {
        Some(c) => c@,
        None => "firedancer-config.toml"@,
    }
}

/// The admin command that makes the running validator take the funded or the unfunded
/// identity, without a restart.
pub open spec fn set_identity_command_text(kind: ClientKind, p: NodePaths, funded: bool) -> Seq<
    char,
> {
    match kind {
        ClientKind::Firedancer => fdctl_of(p) + " set-identity --config "@ + fd_config_of(p) + " "@
            + identity_file(p, funded),
        ClientKind::Agave => "agave-validator -l "@ + p.ledger@ + " set-identity "@
            + identity_file(p, funded),
        ClientKind::Solana => "solana-validator -l "@ + p.ledger@ + " set-identity "@
            + identity_file(p, funded),
    }
}

/// What follows the last `/` of a path (the whole path when it has none).
pub open spec fn base_name(path: Seq<char>) -> Seq<char>
    decreases path.len(),
{
    if path.len() == 0 {
        path
    } else if path.last() == '/' {
        Seq::empty()
    } else {
        base_name(path.drop_last()).push(path.last())
    }
}

/// Where a tower file lands in the standby's ledger: the same file name.
pub open spec fn tower_destination_text(tower_path: Seq<char>, ledger: Seq<char>) -> Seq<char> {
    ledger + "/"@ + base_name(tower_path)
}

pub fn address_command(cli: &str, keyfile: &str) -> (r: String)
    ensures
        r@ == address_command_text(cli@, keyfile@),
{
    let mut r = String::from_str(cli);
    r.append(" address -k ");
    r.append(keyfile);
    r
}

pub fn probe_command(ledger: &str, cli: &str) -> (r: String)
    ensures
        r@ == probe_command_text(ledger@, cli@),
{
    let mut r = String::from_str(
        "echo '=== PROCESSES ===' && ps aux | grep -Ei 'solana-validator|agave|fdctl|firedancer' | grep -v grep; echo '=== DISK ===' && df ",
    );
    r.append(ledger);
    r.append(
        " | tail -1 | awk '{print $5}' | sed 's/%//'; echo '=== LOAD ===' && uptime | awk -F'load average:' '{print $2}' | awk '{print $1}' | sed 's/,//'; echo '=== SYNC ===' && timeout 3 ",
    );
    r.append(cli);
    r.append(" catchup --our-localhost 2>/dev/null || echo 'timeout'; echo '=== END ==='");
    r
}

pub fn file_check_command(p: &NodePaths) -> (r: String)
    ensures
        r@ == file_check_command_text(*p),
{
    let mut r = String::from_str("test -r ");
    r.append(p.funded_identity.as_str());
    r.append(" && echo funded_ok || echo funded_fail; test -r ");
    r.append(p.unfunded_identity.as_str());
    r.append(" && echo unfunded_ok || echo unfunded_fail; test -r ");
    r.append(p.vote_keypair.as_str());
    r.append(" && echo vote_ok || echo vote_fail; echo tower_count $(ls -1d ");
    r.append(p.tower.as_str());
    r.append(" 2>/dev/null | wc -l); test -d ");
    r.append(p.ledger.as_str());
    r.append(" && test -w ");
    r.append(p.ledger.as_str());
    r.append(" && echo ledger_ok || echo ledger_fail; df ");
    r.append(p.ledger.as_str());
    r.append(" | tail -1 | awk '{print $4}'; test -x ");
    r.append(p.solana_cli_path.as_str());
    r.append(" && echo cli_ok || echo cli_fail");
    r
}

pub fn tower_listing_command(glob: &str) -> (r: String)
    ensures
        r@ == tower_listing_command_text(glob@),
{
    let mut r = String::from_str("ls -1d ");
    r.append(glob);
    r.append(" 2>/dev/null");
    r
}

pub fn checksum_command(path: &str) -> (r: String)
    ensures
        r@ == checksum_command_text(path@),
{
    let mut r = String::from_str("sha256sum ");
    r.append(path);
    r
}

pub fn set_identity_command(kind: ClientKind, p: &NodePaths, funded: bool) -> (r: String)
    ensures
        r@ == set_identity_command_text(kind, *p, funded),
{
    let file = if funded {
        p.funded_identity.as_str()
    } else {
        p.unfunded_identity.as_str()
    };
    match kind {
        ClientKind::Firedancer => {
            let mut r = match &p.fdctl_path {
                Some(f) => String::from_str(f.as_str()),
                None => String::from_str("fdctl"),
            };
            r.append(" set-identity --config ");
            match &p.firedancer_config {
                Some(c) => r.append(c.as_str()),
                None => r.append("firedancer-config.toml"),
            }
            r.append(" ");
            r.append(file);
            r
        },
        ClientKind::Agave => {
            let mut r = String::from_str("agave-validator -l ");
            r.append(p.ledger.as_str());
            r.append(" set-identity ");
            r.append(file);
            r
        },
        ClientKind::Solana => {
            let mut r = String::from_str("solana-validator -l ");
            r.append(p.ledger.as_str());
            r.append(" set-identity ");
            r.append(file);
            r
        },
    }
}

/// Where the tower file `tower_path` goes in the ledger directory `ledger`.
pub fn tower_destination(tower_path: &str, ledger: &str) -> (r: String)
    ensures
        r@ == tower_destination_text(tower_path@, ledger@),
{
    let cs = chars_of(tower_path);
    let mut start: usize = cs.len();
    assert(cs@.take(cs.len() as int) =~= cs@);
    assert(cs@.subrange(cs.len() as int, cs.len() as int) =~= Seq::<char>::empty());
    assert(base_name(cs@) + Seq::<char>::empty() =~= base_name(cs@));
    while start > 0 && cs[start - 1] != '/'
        invariant
            start <= cs.len(),
            base_name(cs@) == base_name(cs@.take(start as int)) + cs@.subrange(
                start as int,
                cs.len() as int,
            ),
        decreases start,
    {
        assert(cs@.take(start as int).drop_last() =~= cs@.take(start - 1));
        assert(cs@.subrange(start - 1, cs.len() as int) =~= seq![cs@[start - 1]] + cs@.subrange(
            start as int,
            cs.len() as int,
        ));
        assert(base_name(cs@.take(start as int)) == base_name(cs@.take(start - 1)).push(
            cs@[start - 1],
        ));
        assert(base_name(cs@.take(start - 1)).push(cs@[start - 1]) + cs@.subrange(
            start as int,
            cs.len() as int,
        ) =~= base_name(cs@.take(start - 1)) + cs@.subrange(start - 1, cs.len() as int));
        start = start - 1;
    }
    assert(base_name(cs@.take(start as int)) =~= Seq::<char>::empty());
    let name = crate::text::slice_chars(&cs, start, cs.len());
    let mut r = String::from_str(ledger);
    r.append("/");
    let tail = string_of(&name);
    r.append(tail.as_str());
    assert(base_name(cs@) =~= name@);
    r
}

/// The characters of `s` with each single quote written as `'\''`.
pub open spec fn quote_body(s: Seq<char>) -> Seq<char>
    decreases s.len(),
{
    if s.len() == 0 {
        s
    } else if s.last() == '\'' {
        quote_body(s.drop_last()) + "'\\''"@
    } else {
        quote_body(s.drop_last()).push(s.last())
    }
}

/// `s` as one single-quoted shell word.
pub open spec fn shell_quoted(s: Seq<char>) -> Seq<char> {
    "'"@ + quote_body(s) + "'"@
}

/// `command` run by `sh`, stopped after `secs` seconds.
pub open spec fn with_timeout_text(secs: u64, command: Seq<char>) -> Seq<char> {
    "timeout "@ + decimal(secs as nat) + " sh -c "@ + shell_quoted(command)
}

/// `s` as one single-quoted shell word.
pub fn shell_quote(s: &str) -> (r: String)
    ensures
        r@ == shell_quoted(s@),
{
    let cs = chars_of(s);
    let mut r = String::from_str("'");
    let ghost start = r@;
    let mut i: usize = 0;
    while i < cs.len()
        invariant
            i <= cs.len(),
            cs@ == s@,
            start == "'"@,
            r@ == start + quote_body(cs@.take(i as int)),
        decreases cs.len() - i,
    {
        assert(cs@.take(i + 1).drop_last() =~= cs@.take(i as int));
        if cs[i] == '\'' {
            r.append("'\\''");
            assert(r@ =~= start + quote_body(cs@.take(i + 1)));
        } else {
            push_char(&mut r, cs[i]);
            assert(r@ =~= start + quote_body(cs@.take(i + 1)));
        }
        i = i + 1;
    }
    assert(cs@.take(cs.len() as int) =~= cs@);
    r.append("'");
    r
}

/// A command line that runs `command` under `sh` and stops it after `secs` seconds.
pub fn with_timeout(secs: u64, command: &str) -> (r: String)
    ensures
        r@ == with_timeout_text(secs, command@),
{
    let mut r = String::from_str("timeout ");
    let d = decimal_text(secs);
    r.append(d.as_str());
    r.append(" sh -c ");
    let q = shell_quote(command);
    r.append(q.as_str());
    r
}

/// The command that asks the running validator to write its latest tower to `file`,
/// through its admin channel.
pub open spec fn save_tower_command_text(kind: ClientKind, p: NodePaths, file: Seq<char>) -> Seq<
    char,
> {
    match kind {
        ClientKind::Firedancer => fdctl_of(p) + " tower --config "@ + fd_config_of(p)
            + " --output "@ + file,
        ClientKind::Agave => "agave-validator -l "@ + p.ledger@ + " tower --output "@ + file,
        ClientKind::Solana => "solana-validator -l "@ + p.ledger@ + " tower --output "@ + file,
    }
}

pub fn save_tower_command(kind: ClientKind, p: &NodePaths, file: &str) -> (r: String)
    ensures
        r@ == save_tower_command_text(kind, *p, file@),
{
    match kind {
        ClientKind::Firedancer => {
            let mut r = match &p.fdctl_path {
                Some(f) => String::from_str(f.as_str()),
                None => String::from_str("fdctl"),
            };
            r.append(" tower --config ");
            match &p.firedancer_config {
                Some(c) => r.append(c.as_str()),
                None => r.append("firedancer-config.toml"),
            }
            r.append(" --output ");
            r.append(file);
            r
        },
        ClientKind::Agave => {
            let mut r = String::from_str("agave-validator -l ");
            r.append(p.ledger.as_str());
            r.append(" tower --output ");
            r.append(file);
            r
        },
        ClientKind::Solana => {
            let mut r = String::from_str("solana-validator -l ");
            r.append(p.ledger.as_str());
            r.append(" tower --output ");
            r.append(file);
            r
        },
    }
}

/// Whether a key file derives to the declared key (`None` when it could not be read),
/// with what the operator is told when it does not.
pub struct KeyVerdict {
    pub matches: Option<bool>,
    pub issue: Option<String>,
}

pub open spec fn key_reading(output: Option<Seq<char>>, expected: Seq<char>) -> Option<bool> {
    match output {
        Some(o) => Some(names_key(o, expected)),
        None => None,
    }
}

/// The note on a key check of kind `what` (`Identity`, `Vote`).
pub open spec fn key_issue_text(output: Option<Seq<char>>, expected: Seq<char>, what: Seq<char>) -> Option<Seq<char>> {
    match output {
        None => Some("Could not verify "@ + what + " Pubkey - failed to read keypair"@),
        Some(o) => if names_key(o, expected) {
            None
        } else {
            Some(what + " Pubkey mismatch: expected "@ + expected + ", found "@ + trim(o))
        },
    }
}

/// Judges the output of a key derivation (`None` when the command failed) against the
/// declared key.
pub fn verify_key(output: Option<&str>, expected: &str, what: &str) -> (r: KeyVerdict)
    ensures
        r.matches == key_reading(
            match output {
                Some(o) => Some(o@),
                None => None,
            },
            expected@,
        ),
        match r.issue {
            Some(t) => key_issue_text(
                match output {
                    Some(o) => Some(o@),
                    None => None,
                },
                expected@,
                what@,
            ) == Some(t@),
            None => key_issue_text(
                match output {
                    Some(o) => Some(o@),
                    None => None,
                },
                expected@,
                what@,
            ) is None,
        },
{
    match output {
        None => {
            let mut t = String::from_str("Could not verify ");
            t.append(what);
            t.append(" Pubkey - failed to read keypair");
            KeyVerdict { matches: None, issue: Some(t) }
        },
        Some(o) => {
            if key_matches(o, expected) {
                KeyVerdict { matches: Some(true), issue: None }
            } else {
                let cs = chars_of(o);
                let found = trim_chars(&cs);
                let mut t = String::from_str(what);
                t.append(" Pubkey mismatch: expected ");
                t.append(expected);
                t.append(", found ");
                let f = string_of(&found);
                t.append(f.as_str());
                KeyVerdict { matches: Some(false), issue: Some(t) }
            }
        },
    }
}

} // verus!
