use vstd::prelude::*;
use crate::text::{
    chars_of, contains, contains_str, copy_chars, is_digit, join2, lines_of, parse_milli,
    parse_milli_chars, parse_u64, parse_u64_chars, same_chars, slice_chars, string_of,
    text_lines, trim, trim_chars, views, words, words_of,
};

verus! {

/// Validator software told apart by the process command line.
#[derive(Clone, Copy, Debug, PartialEq, Eq, Structural)]
pub enum ClientKind {
    Firedancer,
    Agave,
    Solana,
}

/// How far a node trails the cluster, as its catchup probe reports it.
#[derive(Clone, Copy, Debug, PartialEq, Eq, Structural)]
pub enum SyncStatus {
    InSync,
    /// Behind the cluster; the slot count when the probe printed one.
    Behind { slots: Option<u64> },
    Timeout,
}

/// What one batched probe of a node shows; a field is `None` when its section is
/// missing or malformed.
#[derive(Clone, Copy, Debug, PartialEq, Eq, Structural)]
pub struct ProbeReport {
    pub validator_running: Option<bool>,
    pub client: Option<ClientKind>,
    pub ledger_disk_used_pct: Option<u32>,
    /// One-minute load average, in thousandths.
    pub load_milli: Option<u64>,
    pub sync: Option<SyncStatus>,
}

/// The frame line that opens section `name`.
pub open spec fn frame(name: Seq<char>) -> Seq<char> {
    "=== "@ + name + " ==="@
}

/// A line that opens some section.
pub open spec fn is_frame_line(line: Seq<char>) -> bool {
    let t = trim(line);
    t.len() >= 4 && t.take(4) == "=== "@
}

/// Index of the first line at or after `from` that opens section `name`.
pub open spec fn find_frame(ls: Seq<Seq<char>>, name: Seq<char>, from: int) -> Option<int>
    decreases ls.len() - from,
{
    if from < 0 || from >= ls.len() {
        None
    } else if trim(ls[from]) == frame(name) {
        Some(from)
    } else {
        find_frame(ls, name, from + 1)
    }
}

/// Index of the first frame line at or after `from`, or the number of lines.
pub open spec fn frame_end(ls: Seq<Seq<char>>, from: int) -> int
    decreases ls.len() - from,
{
    if from < 0 || from >= ls.len() {
        ls.len() as int
    } else if is_frame_line(ls[from]) {
        from
    } else {
        frame_end(ls, from + 1)
    }
}

/// The lines of the first section called `name`, up to the next frame line.
pub open spec fn section(ls: Seq<Seq<char>>, name: Seq<char>) -> Option<Seq<Seq<char>>> {
    match find_frame(ls, name, 0) {
        Some(h) => Some(ls.subrange(h + 1, frame_end(ls, h + 1))),
        None => None,
    }
}

/// A process line of a validator, not of the `grep` that listed it.
pub open spec fn is_validator_line(line: Seq<char>) -> bool {
    !contains(line, "grep"@) && (contains(line, "solana-validator"@) || contains(line, "agave"@)
        || contains(line, "fdctl"@) || contains(line, "firedancer"@))
}

/// The first validator line at or after `from`.
pub open spec fn first_validator_line(body: Seq<Seq<char>>, from: int) -> Option<Seq<char>>
    decreases body.len() - from,
{
    if from < 0 || from >= body.len() {
        None
    } else if is_validator_line(body[from]) {
        Some(body[from])
    } else {
        first_validator_line(body, from + 1)
    }
}

pub open spec fn client_of_line(line: Seq<char>) -> ClientKind {
    if contains(line, "fdctl"@) || contains(line, "firedancer"@) {
        ClientKind::Firedancer
    } else if contains(line, "agave"@) {
        ClientKind::Agave
    } else {
        ClientKind::Solana
    }
}

/// The first word that reads as a number.
pub open spec fn first_number(ws: Seq<Seq<char>>, from: int) -> Option<u64>
    decreases ws.len() - from,
{
    if from < 0 || from >= ws.len() {
        None
    } else if parse_u64(ws[from]) is Some {
        parse_u64(ws[from])
    } else {
        first_number(ws, from + 1)
    }
}

/// The sync state that one line of catchup output reports.
/// A blank line reports nothing.
pub open spec fn sync_of_line(line: Seq<char>) -> Option<SyncStatus> {
    let t = trim(line);
    if t.len() == 0 {
        None
    } else if contains(t, "behind"@) {
        Some(SyncStatus::Behind { slots: first_number(words(t), 0) })
    } else if contains(t, "timeout"@) {
        Some(SyncStatus::Timeout)
    } else {
        Some(SyncStatus::InSync)
    }
}

/// The first line of a section, when there is one.
pub open spec fn first_line(body: Option<Seq<Seq<char>>>) -> Option<Seq<char>> {
    match body {
        Some(b) => if b.len() > 0 {
            Some(b[0])
        } else {
            None
        },
        None => None,
    }
}

/// A used-space percentage, 0 to 100; anything else is malformed.
pub open spec fn percent_of(line: Seq<char>) -> Option<u32> {
    match parse_u64(trim(line)) {
        Some(v) => if v <= 100 {
            Some(v as u32)
        } else {
            None
        },
        None => None,
    }
}

/// The report that the framed output `out` of a batched probe gives.
pub open spec fn probe_report(out: Seq<char>) -> ProbeReport {
    let ls = text_lines(out);
    let procs = section(ls, "PROCESSES"@);
    let first = match procs {
        Some(b) => first_validator_line(b, 0),
        None => None,
    };
    ProbeReport {
        validator_running: match procs {
            Some(b) => Some(first is Some),
            None => None,
        },
        client: match first {
            Some(l) => Some(client_of_line(l)),
            None => None,
        },
        ledger_disk_used_pct: match first_line(section(ls, "DISK"@)) {
            Some(l) => percent_of(l),
            None => None,
        },
        load_milli: match first_line(section(ls, "LOAD"@)) {
            Some(l) => parse_milli(trim(l)),
            None => None,
        },
        sync: match first_line(section(ls, "SYNC"@)) {
            Some(l) => sync_of_line(l),
            None => None,
        },
    }
}

/// The probe report is a function of the framed text alone: equal texts give equal
/// reports.
pub proof fn lemma_report_depends_on_text_alone(a: Seq<char>, b: Seq<char>)
    requires
        a == b,
    ensures
        probe_report(a) == probe_report(b),
{
}

/// Whether `line` opens a section.
fn frame_line(line: &Vec<char>) -> (r: bool)
    ensures
        r == is_frame_line(line@),
{
    let t = trim_chars(line);
    if t.len() < 4 {
        return false;
    }
    let head = slice_chars(&t, 0, 4);
    assert(t@.subrange(0, 4) =~= t@.take(4));
    let opener = chars_of("=== ");
    same_chars(&head, &opener)
}

/// The lines of the first section called `name`, as `section` states.
pub fn section_lines(ls: &Vec<Vec<char>>, name: &str) -> (r: Option<Vec<Vec<char>>>)
    ensures
        match r {
            Some(b) => section(views(ls@), name@) == Some(views(b@)),
            None => section(views(ls@), name@) is None,
        },
{
    let ghost lv = views(ls@);
    let mut want = chars_of("=== ");
    let n = chars_of(name);
    let closer = chars_of(" ===");
    let mut k: usize = 0;
    while k < n.len()
        invariant
            k <= n.len(),
            want@ == "=== "@ + n@.take(k as int),
        decreases n.len() - k,
    {
        want.push(n[k]);
        k = k + 1;
        assert(want@ =~= "=== "@ + n@.take(k as int));
    }
    k = 0;
    while k < closer.len()
        invariant
            k <= closer.len(),
            n@ == name@,
            want@ == "=== "@ + n@ + closer@.take(k as int),
        decreases closer.len() - k,
    {
        want.push(closer[k]);
        k = k + 1;
        assert(want@ =~= "=== "@ + n@ + closer@.take(k as int));
    }
    assert(n@.take(n@.len() as int) =~= n@);
    assert(closer@.take(closer@.len() as int) =~= closer@);
    assert(want@ == frame(name@));
    let mut h: usize = 0;
    while h < ls.len()
        invariant
            h <= ls.len(),
            lv == views(ls@),
            want@ == frame(name@),
            find_frame(lv, name@, 0) == find_frame(lv, name@, h as int),
        ensures
            h < ls.len() ==> find_frame(lv, name@, 0) == Some(h as int),
            h >= ls.len() ==> find_frame(lv, name@, 0) is None,
        decreases ls.len() - h,
    {
        let t = trim_chars(&ls[h]);
        assert(lv[h as int] == ls@[h as int]@);
        if same_chars(&t, &want) {
            assert(find_frame(lv, name@, h as int) == Some(h as int));
            break;
        }
        h = h + 1;
    }
    if h >= ls.len() {
        return None;
    }
    let mut e: usize = h + 1;
    while e < ls.len()
        invariant
            h < e <= ls.len(),
            lv == views(ls@),
            frame_end(lv, h + 1) == frame_end(lv, e as int),
        ensures
            frame_end(lv, h + 1) == e,
        decreases ls.len() - e,
    {
        assert(lv[e as int] == ls@[e as int]@);
        if frame_line(&ls[e]) {
            assert(frame_end(lv, e as int) == e);
            break;
        }
        e = e + 1;
    }
    let mut body: Vec<Vec<char>> = Vec::new();
    let mut j: usize = h + 1;
    while j < e
        invariant
            h < j <= e <= ls.len(),
            lv == views(ls@),
            views(body@) == lv.subrange(h + 1, j as int),
        decreases e - j,
    {
        let ghost before = body@;
        let line = copy_chars(&ls[j]);
        assert(lv[j as int] == ls@[j as int]@);
        body.push(line);
        assert(body@ == before.push(line));
        assert(views(body@) =~= views(before).push(lv[j as int]));
        assert(lv.subrange(h + 1, j + 1) =~= lv.subrange(h + 1, j as int).push(lv[j as int]));
        j = j + 1;
        assert(views(body@) =~= lv.subrange(h + 1, j as int));
    }
    Some(body)
}

/// The first validator line of a process listing.
fn first_validator(body: &Vec<Vec<char>>) -> (r: Option<Vec<char>>)
    ensures
        match r {
            Some(l) => first_validator_line(views(body@), 0) == Some(l@),
            None => first_validator_line(views(body@), 0) is None,
        },
{
    let ghost bv = views(body@);
    let mut i: usize = 0;
    while i < body.len()
        invariant
            i <= body.len(),
            bv == views(body@),
            first_validator_line(bv, 0) == first_validator_line(bv, i as int),
        decreases body.len() - i,
    {
        if validator_line(&body[i]) {
            assert(bv[i as int] == body@[i as int]@);
            return Some(copy_chars(&body[i]));
        }
        i = i + 1;
    }
    None
}

/// Whether `line` lists a validator process.
pub fn validator_line(line: &Vec<char>) -> (r: bool)
    ensures
        r == is_validator_line(line@),
{
    !contains_str(line, "grep") && (contains_str(line, "solana-validator") || contains_str(
        line,
        "agave",
    ) || contains_str(line, "fdctl") || contains_str(line, "firedancer"))
}

/// The client that a validator process line runs.
pub fn client_of(line: &Vec<char>) -> (r: ClientKind)
    ensures
        r == client_of_line(line@),
{
    if contains_str(line, "fdctl") || contains_str(line, "firedancer") {
        ClientKind::Firedancer
    } else if contains_str(line, "agave") {
        ClientKind::Agave
    } else {
        ClientKind::Solana
    }
}

/// The sync state that a line of catchup output reports.
pub fn sync_of(line: &Vec<char>) -> (r: Option<SyncStatus>)
    ensures
        r == sync_of_line(line@),
{
    let t = trim_chars(line);
    if t.len() == 0 {
        None
    } else if contains_str(&t, "behind") {
        let ws = words_of(&t);
        let ghost wv = views(ws@);
        let mut i: usize = 0;
        while i < ws.len()
            invariant
                i <= ws.len(),
                wv == views(ws@),
                wv == words(t@),
                t@ == trim(line@),
                t@.len() > 0,
                contains(t@, "behind"@),
                first_number(wv, 0) == first_number(wv, i as int),
            decreases ws.len() - i,
        {
            let v = parse_u64_chars(&ws[i]);
            assert(wv[i as int] == ws@[i as int]@);
            if v.is_some() {
                return Some(SyncStatus::Behind { slots: v });
            }
            i = i + 1;
        }
        Some(SyncStatus::Behind { slots: None })
    } else if contains_str(&t, "timeout") {
        Some(SyncStatus::Timeout)
    } else {
        Some(SyncStatus::InSync)
    }
}

/// Reads the framed output of a batched probe. Equal texts give equal reports: the
/// result is `probe_report` of the characters alone.
pub fn parse_batch_output(output: &str) -> (r: ProbeReport)
    ensures
        r == probe_report(output@),
{
    let cs = chars_of(output);
    let ls = lines_of(&cs);
    let procs = section_lines(&ls, "PROCESSES");
    let (running, client) = match procs {
        Some(b) => match first_validator(&b) {
            Some(l) => (Some(true), Some(client_of(&l))),
            None => (Some(false), None),
        },
        None => (None, None),
    };
    let disk = match section_lines(&ls, "DISK") {
        Some(b) => if b.len() > 0 {
            let t = trim_chars(&b[0]);
            match parse_u64_chars(&t) {
                Some(v) => if v <= 100 {
                    Some(v as u32)
                } else {
                    None
                },
                None => None,
            }
        } else {
            None
        },
        None => None,
    };
    let load = match section_lines(&ls, "LOAD") {
        Some(b) => if b.len() > 0 {
            let t = trim_chars(&b[0]);
            parse_milli_chars(&t)
        } else {
            None
        },
        None => None,
    };
    let sync = match section_lines(&ls, "SYNC") {
        Some(b) => if b.len() > 0 {
            sync_of(&b[0])
        } else {
            None
        },
        None => None,
    };
    ProbeReport {
        validator_running: running,
        client,
        ledger_disk_used_pct: disk,
        load_milli: load,
        sync,
    }
}

/// `label`, followed by a blank and `version` when there is one.
pub open spec fn labelled(label: Seq<char>, version: Option<Seq<char>>) -> Seq<char> {
    match version {
        Some(v) => label + " "@ + v,
        None => label,
    }
}

pub open spec fn second_word(line: Seq<char>) -> Option<Seq<char>> {
    if words(line).len() > 1 {
        Some(words(line)[1])
    } else {
        None
    }
}

/// The version label of a line such as
/// `agave-validator 2.2.16 (src:00000000; feat:3073396398, client:JitoLabs)`.
pub open spec fn agave_version_label(line: Seq<char>) -> Seq<char> {
    if contains(line, "client:JitoLabs"@) {
        labelled("Jito"@, second_word(line))
    } else if contains(line, "client:Agave"@) || contains(line, "agave-validator"@) {
        labelled("Agave"@, second_word(line))
    } else {
        line
    }
}

/// The label that `--version` output of an Agave-family validator gives: its first
/// line, trimmed, when that is not empty.
pub open spec fn agave_version_of(output: Seq<char>) -> Option<Seq<char>> {
    let ls = text_lines(output);
    if ls.len() > 0 && trim(ls[0]).len() > 0 {
        Some(agave_version_label(trim(ls[0])))
    } else {
        None
    }
}

pub open spec fn has_digit(l: Seq<char>) -> bool {
    exists|i: int| 0 <= i < l.len() && is_digit(#[trigger] l[i])
}

/// A line of Firedancer `--version` output such as `0.505.20216 (44f9f393d167)`.
pub open spec fn is_version_line(l: Seq<char>) -> bool {
    contains(l, "."@) && (contains(l, "("@) || has_digit(l))
}

pub open spec fn first_version_line(ls: Seq<Seq<char>>, from: int) -> Option<Seq<char>>
    decreases ls.len() - from,
{
    if from < 0 || from >= ls.len() {
        None
    } else if is_version_line(ls[from]) {
        Some(ls[from])
    } else {
        first_version_line(ls, from + 1)
    }
}

/// The label that Firedancer `--version` output gives: the first word of its first
/// version line.
pub open spec fn firedancer_version_of(output: Seq<char>) -> Option<Seq<char>> {
    match first_version_line(text_lines(output), 0) {
        Some(l) => {
            let t = trim(l);
            Some(
                "Firedancer "@ + if words(t).len() > 0 {
                    words(t)[0]
                } else {
                    t
                },
            )
        },
        None => None,
    }
}

/// Whether `w` names a validator binary whose version can be asked.
pub open spec fn is_launch_text(w: Seq<char>) -> bool {
    contains(w, "build/native/gcc/bin/fdctl"@) || contains(w, "target/release/agave-validator"@)
}

pub open spec fn first_launch_line(ls: Seq<Seq<char>>, from: int) -> Option<Seq<char>>
    decreases ls.len() - from,
{
    if from < 0 || from >= ls.len() {
        None
    } else if is_validator_line(ls[from]) && is_launch_text(ls[from]) {
        Some(ls[from])
    } else {
        first_launch_line(ls, from + 1)
    }
}

pub open spec fn first_launch_word(ws: Seq<Seq<char>>, from: int) -> Option<Seq<char>>
    decreases ws.len() - from,
{
    if from < 0 || from >= ws.len() {
        None
    } else if is_launch_text(ws[from]) {
        Some(ws[from])
    } else {
        first_launch_word(ws, from + 1)
    }
}

/// The client and the binary path of the validator that a process listing shows.
pub open spec fn validator_executable_of(ps: Seq<char>) -> Option<(ClientKind, Seq<char>)> {
    match first_launch_line(text_lines(ps), 0) {
        Some(l) => match first_launch_word(words(l), 0) {
            Some(w) => Some(
                (
                    if contains(w, "build/native/gcc/bin/fdctl"@) {
                        ClientKind::Firedancer
                    } else {
                        ClientKind::Agave
                    },
                    w,
                ),
            ),
            None => None,
        },
        None => None,
    }
}

fn second_word_of(line: &Vec<char>) -> (r: Option<Vec<char>>)
    ensures
        match r {
            Some(w) => second_word(line@) == Some(w@),
            None => second_word(line@) is None,
        },
{
    let ws = words_of(line);
    if ws.len() > 1 {
        assert(views(ws@)[1] == ws@[1]@);
        Some(copy_chars(&ws[1]))
    } else {
        None
    }
}

fn labelled_text(label: &str, version: Option<Vec<char>>) -> (r: String)
    ensures
        r@ == labelled(label@, match version {
            Some(v) => Some(v@),
            None => None,
        }),
{
    match version {
        Some(v) => {
            let mut r = join2(label, " ");
            let tail = string_of(&v);
            r.append(tail.as_str());
            r
        },
        None => String::from_str(label),
    }
}

/// The version label of one line of Agave-family `--version` output.
pub fn parse_agave_version(version_line: &str) -> (r: String)
    ensures
        r@ == agave_version_label(version_line@),
{
    let line = chars_of(version_line);
    if contains_str(&line, "client:JitoLabs") {
        labelled_text("Jito", second_word_of(&line))
    } else if contains_str(&line, "client:Agave") || contains_str(&line, "agave-validator") {
        labelled_text("Agave", second_word_of(&line))
    } else {
        String::from_str(version_line)
    }
}

/// The version label that Agave-family `--version` output gives, if its first line is
/// not blank.
pub fn agave_version_from_output(output: &str) -> (r: Option<String>)
    ensures
        match r {
            Some(v) => agave_version_of(output@) == Some(v@),
            None => agave_version_of(output@) is None,
        },
{
    let cs = chars_of(output);
    let ls = lines_of(&cs);
    if ls.len() == 0 {
        return None;
    }
    let t = trim_chars(&ls[0]);
    assert(views(ls@)[0] == ls@[0]@);
    if t.len() == 0 {
        return None;
    }
    let s = string_of(&t);
    Some(parse_agave_version(s.as_str()))
}

fn any_digit(l: &Vec<char>) -> (r: bool)
    ensures
        r == has_digit(l@),
{
    let mut i: usize = 0;
    while i < l.len()
        invariant
            i <= l.len(),
            forall|k: int| 0 <= k < i ==> !is_digit(#[trigger] l@[k]),
        decreases l.len() - i,
    {
        if '0' <= l[i] && l[i] <= '9' {
            assert(is_digit(l@[i as int]));
            return true;
        }
        i = i + 1;
    }
    false
}

/// The version label that Firedancer `--version` output gives, if any line holds one.
pub fn firedancer_version_from_output(output: &str) -> (r: Option<String>)
    ensures
        match r {
            Some(v) => firedancer_version_of(output@) == Some(v@),
            None => firedancer_version_of(output@) is None,
        },
{
    let cs = chars_of(output);
    let ls = lines_of(&cs);
    let ghost lv = views(ls@);
    let mut i: usize = 0;
    while i < ls.len()
        invariant
            i <= ls.len(),
            lv == views(ls@),
            lv == text_lines(output@),
            first_version_line(lv, 0) == first_version_line(lv, i as int),
        decreases ls.len() - i,
    {
        let l = &ls[i];
        assert(lv[i as int] == l@);
        if contains_str(l, ".") && (contains_str(l, "(") || any_digit(l)) {
            let t = trim_chars(l);
            let ws = words_of(&t);
            let mut r = String::from_str("Firedancer ");
            if ws.len() > 0 {
                assert(views(ws@)[0] == ws@[0]@);
                let w = string_of(&ws[0]);
                r.append(w.as_str());
            } else {
                let w = string_of(&t);
                r.append(w.as_str());
            }
            return Some(r);
        }
        i = i + 1;
    }
    None
}

/// The client and binary path of the validator process in a process listing, when one
/// runs from a known build location.
pub fn validator_executable(ps_output: &str) -> (r: Option<(ClientKind, String)>)
    ensures
        match r {
            Some((k, p)) => validator_executable_of(ps_output@) == Some((k, p@)),
            None => validator_executable_of(ps_output@) is None,
        },
{
    let cs = chars_of(ps_output);
    let ls = lines_of(&cs);
    let ghost lv = views(ls@);
    let mut i: usize = 0;
    while i < ls.len()
        invariant
            i <= ls.len(),
            lv == views(ls@),
            lv == text_lines(ps_output@),
            first_launch_line(lv, 0) == first_launch_line(lv, i as int),
        decreases ls.len() - i,
    {
        let l = &ls[i];
        assert(lv[i as int] == l@);
        if validator_line(l) && (contains_str(l, "build/native/gcc/bin/fdctl") || contains_str(
            l,
            "target/release/agave-validator",
        )) {
            let ws = words_of(l);
            let ghost wv = views(ws@);
            let mut j: usize = 0;
            assert(first_launch_line(lv, 0) == Some(l@));
            while j < ws.len()
                invariant
                    j <= ws.len(),
                    lv == text_lines(ps_output@),
                    first_launch_line(lv, 0) == Some(l@),
                    wv == views(ws@),
                    wv == words(l@),
                    first_launch_word(wv, 0) == first_launch_word(wv, j as int),
                decreases ws.len() - j,
            {
                let w = &ws[j];
                assert(wv[j as int] == w@);
                let fd = contains_str(w, "build/native/gcc/bin/fdctl");
                if fd || contains_str(w, "target/release/agave-validator") {
                    let kind = if fd {
                        ClientKind::Firedancer
                    } else {
                        ClientKind::Agave
                    };
                    return Some((kind, string_of(w)));
                }
                j = j + 1;
            }
            return None;
        }
        i = i + 1;
    }
    None
}

/// The version line that a plain `--version` output gives: its first line, trimmed,
/// when that is not empty.
pub open spec fn plain_version_of(output: Seq<char>) -> Option<Seq<char>> {
    let ls = text_lines(output);
    if ls.len() > 0 && trim(ls[0]).len() > 0 {
        Some(trim(ls[0]))
    } else {
        None
    }
}

/// The first line of `--version` output, trimmed, if it is not blank.
pub fn plain_version_from_output(output: &str) -> (r: Option<String>)
    ensures
        match r {
            Some(v) => plain_version_of(output@) == Some(v@),
            None => plain_version_of(output@) is None,
        },
{
    let cs = chars_of(output);
    let ls = lines_of(&cs);
    if ls.len() == 0 {
        return None;
    }
    let t = trim_chars(&ls[0]);
    assert(views(ls@)[0] == ls@[0]@);
    if t.len() == 0 {
        return None;
    }
    Some(string_of(&t))
}

} // verus!
