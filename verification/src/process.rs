//! The process manager tool: the table of background daemons it started, the
//! requests it reads, and the reports it makes of commands and their logs.
//! Processes are spawned, signalled and their logs read outside this crate.
use vstd::prelude::*;
use std::collections::HashMap;
use crate::fmt::{decimal, decimal_chars, signed_decimal, signed_decimal_chars};
use crate::models::{tool_error, ToolError};
use crate::params::or_default;
use crate::tags::{extract_tag_chars, opt_str_is, spec_extract_tag};
use crate::text::{
    append_chars, append_str, chars_of, find, find_char, owned, parse_u32, parse_usize,
    slice_copy, spec_parse_unsigned, str_eq, string_of, tail, trim, trim_exec,
};

verus! {

// ───────────────────────── text lines ─────────────────────────

/// `l` without one trailing carriage return.
pub open spec fn strip_cr(l: Seq<char>) -> Seq<char> {
    if l.len() > 0 && l.last() == '\r' {
        l.drop_last()
    } else {
        l
    }
}

/// The lines of `s`, as `str::lines` yields them: split at each `\n`, a `\r`
/// before it removed, and no empty last line after a final `\n`.
pub open spec fn text_lines(s: Seq<char>) -> Seq<Seq<char>>
    decreases s.len(),
{
    match find(s, seq!['\n']) {
        Some(i) => if 0 <= i < s.len() {
            seq![strip_cr(s.subrange(0, i))] + text_lines(tail(s, i + 1))
        } else {
            Seq::empty()
        },
        None => if s.len() == 0 {
            Seq::empty()
        } else {
            seq![s]
        },
    }
}

/// The lines of `s`.
pub fn lines_of(s: &[char]) -> (r: Vec<Vec<char>>)
    ensures
        r@.len() == text_lines(s@).len(),
        forall|k: int| 0 <= k < r@.len() ==> #[trigger] r@[k]@ == text_lines(s@)[k],
{
    let mut out: Vec<Vec<char>> = Vec::new();
    let mut rest = slice_copy(s, 0, s.len());
    let ghost done: Seq<Seq<char>> = Seq::empty();
    assert(rest@ =~= s@);
    loop
        invariant
            out@.len() == done.len(),
            forall|k: int| 0 <= k < out@.len() ==> #[trigger] out@[k]@ == done[k],
            text_lines(s@) == done + text_lines(rest@),
        decreases rest@.len(),
    {
        match find_char(rest.as_slice(), '\n') {
            Some(i) => {
                assert(i < rest@.len() && rest@.len() == rest.len());
                let mut part = slice_copy(rest.as_slice(), 0, i);
                let ghost raw = part@;
                if part.len() > 0 && part[part.len() - 1] == '\r' {
                    part.pop();
                    assert(part@ =~= raw.drop_last());
                }
                let next = slice_copy(rest.as_slice(), i + 1, rest.len());
                assert(next@ =~= tail(rest@, i + 1));
                proof {
                    assert(text_lines(rest@) == seq![part@] + text_lines(next@));
                    assert(done + text_lines(rest@) =~= done.push(part@) + text_lines(next@));
                    done = done.push(part@);
                }
                out.push(part);
                rest = next;
            },
            None => {
                if rest.len() > 0 {
                    proof {
                        assert(done + text_lines(rest@) =~= done.push(rest@));
                        done = done.push(rest@);
                    }
                    out.push(rest);
                } else {
                    assert(done + text_lines(rest@) =~= done);
                }
                return out;
            },
        }
    }
}

/// `ls` joined with `\n` between them.
pub open spec fn join_lines(ls: Seq<Seq<char>>) -> Seq<char>
    decreases ls.len(),
{
    if ls.len() == 0 {
        Seq::empty()
    } else if ls.len() == 1 {
        ls[0]
    } else {
        join_lines(ls.drop_last()) + seq!['\n'] + ls.last()
    }
}

/// The last `limit` lines of `content` (all when there are fewer), joined
/// with `\n`.
pub open spec fn spec_log_tail(content: Seq<char>, limit: nat) -> Seq<char> {
    let ls = text_lines(content);
    let start = if ls.len() > limit { ls.len() - limit } else { 0 };
    join_lines(ls.subrange(start as int, ls.len() as int))
}

/// The last `limit` lines of `content`.
pub fn log_tail(content: &str, limit: usize) -> (r: String)
    ensures
        r@ == spec_log_tail(content@, limit as nat),
{
    let c = chars_of(content);
    let ls = lines_of(c.as_slice());
    let ghost all = text_lines(c@);
    let total = ls.len();
    let start = if total > limit { total - limit } else { 0 };
    let ghost sel = all.subrange(start as int, total as int);
    let mut o: Vec<char> = Vec::new();
    let mut i: usize = start;
    while i < total
        invariant
            start <= i <= total,
            total == ls@.len(),
            total == all.len(),
            all == text_lines(c@),
            sel == all.subrange(start as int, total as int),
            forall|k: int| 0 <= k < ls@.len() ==> #[trigger] ls@[k]@ == all[k],
            o@ == join_lines(sel.subrange(0, i - start)),
        decreases total - i,
    {
        let ghost pre = sel.subrange(0, i - start);
        let ghost next = sel.subrange(0, i - start + 1);
        assert(next.drop_last() =~= pre);
        assert(next.last() == ls@[i as int]@);
        if i > start {
            o.push('\n');
        } else {
            assert(next.len() == 1);
        }
        append_chars(&mut o, ls[i].as_slice());
        assert(o@ =~= join_lines(next));
        i = i + 1;
    }
    assert(sel.subrange(0, total - start) =~= sel);
    string_of(o.as_slice())
}

// ───────────────────────── the daemon table ─────────────────────────

/// A daemon as a listing shows it: its process id, command and log file.
pub struct DaemonSpec {
    pub pid: u32,
    pub command: Seq<char>,
    pub log_file: Seq<char>,
}

/// The daemons the manager started: each process id with its command and
/// log file.
pub struct DaemonTable {
    daemons: HashMap<u32, (String, String)>,
}

/// The process ids of `pids` whose liveness flag is set, in order.
pub open spec fn live_pids(pids: Seq<u32>, alive: Seq<bool>) -> Seq<u32>
    decreases pids.len(),
{
    if pids.len() == 0 || alive.len() != pids.len() {
        Seq::empty()
    } else {
        let p = live_pids(pids.drop_last(), alive.drop_last());
        if alive.last() {
            p.push(pids.last())
        } else {
            p
        }
    }
}

/// The process ids of `pids` whose liveness flag is clear.
pub open spec fn dead_pids(pids: Seq<u32>, alive: Seq<bool>) -> Set<u32>
    decreases pids.len(),
{
    if pids.len() == 0 || alive.len() != pids.len() {
        Set::empty()
    } else {
        let d = dead_pids(pids.drop_last(), alive.drop_last());
        if alive.last() {
            d
        } else {
            d.insert(pids.last())
        }
    }
}

/// The live daemons of `m`, in the order of `pids`.
pub open spec fn live_entries(m: Map<u32, (Seq<char>, Seq<char>)>, pids: Seq<u32>, alive: Seq<bool>) -> Seq<
    DaemonSpec,
> {
    live_pids(pids, alive).map_values(|p: u32| DaemonSpec { pid: p, command: m[p].0, log_file: m[p].1 })
}

/// A dead process id is one of the ids listed.
proof fn lemma_dead_pids(pids: Seq<u32>, alive: Seq<bool>, p: u32)
    requires
        dead_pids(pids, alive).contains(p),
    ensures
        pids.contains(p),
    decreases pids.len(),
{
    if pids.len() > 0 && alive.len() == pids.len() {
        if p != pids.last() || alive.last() {
            lemma_dead_pids(pids.drop_last(), alive.drop_last(), p);
            let j = choose|j: int| 0 <= j < pids.len() - 1 && pids.drop_last()[j] == p;
            assert(pids[j] == p);
        } else {
            assert(pids[pids.len() - 1] == p);
        }
    }
}

impl DaemonTable {
    /// The daemons as a map from process id to command and log file.
    pub closed spec fn map(&self) -> Map<u32, (Seq<char>, Seq<char>)> {
        self.daemons@.map_values(|v: (String, String)| (v.0@, v.1@))
    }

    /// An empty table.
    pub fn new() -> (r: DaemonTable)
        ensures
            r.map() == Map::<u32, (Seq<char>, Seq<char>)>::empty(),
    {
        let r = DaemonTable { daemons: HashMap::new() };
        assert(r.map() =~= Map::<u32, (Seq<char>, Seq<char>)>::empty());
        r
    }

    /// The command and log file of process `pid`.
    pub fn get(&self, pid: u32) -> (r: Option<(String, String)>)
        ensures
            match r {
                Some((c, l)) => self.map().contains_key(pid) && self.map()[pid] == (c@, l@),
                None => !self.map().contains_key(pid),
            },
    {
        broadcast use vstd::std_specs::hash::group_hash_axioms;
        match self.daemons.get(&pid) {
            Some(v) => Some((v.0.clone(), v.1.clone())),
            None => None,
        }
    }

    /// Record process `pid`, replacing what was recorded for it.
    pub fn insert(&mut self, pid: u32, command: String, log_file: String)
        ensures
            final(self).map() == old(self).map().insert(pid, (command@, log_file@)),
    {
        broadcast use vstd::std_specs::hash::group_hash_axioms;
        let ghost before = self.map();
        let ghost cv = (command@, log_file@);
        self.daemons.insert(pid, (command, log_file));
        assert(self.map() =~= before.insert(pid, cv));
    }

    /// Forget process `pid`.
    pub fn remove(&mut self, pid: u32)
        ensures
            final(self).map() == old(self).map().remove(pid),
    {
        broadcast use vstd::std_specs::hash::group_hash_axioms;
        let ghost before = self.map();
        let _gone = self.daemons.remove(&pid);
        assert(self.map() =~= before.remove(pid));
    }

    /// The process ids, each once, in the order the table holds them (whose
    /// liveness the caller checks for [`DaemonTable::prune_and_list`]).
    pub fn pids(&self) -> (r: Vec<u32>)
        ensures
            r@.no_duplicates(),
            r@.to_set() == self.map().dom(),
    {
        broadcast use vstd::std_specs::hash::group_hash_axioms;
        let mut out: Vec<u32> = Vec::new();
        for k in it: self.daemons.keys()
            invariant
                out@ == it.seq().unref().subrange(0, it.index() as int),
                it.seq().unref().no_duplicates(),
                it.seq().unref().to_set() == self.daemons@.dom(),
                it.index() == it.seq().len() ==> out@ == it.seq().unref(),
        {
            out.push(*k);
            assert(it.seq().unref().subrange(0, it.seq().len() as int) =~= it.seq().unref());
        }
        assert(self.map().dom() =~= self.daemons@.dom());
        out
    }
}

/// The listing line of a live daemon.
pub open spec fn daemon_line(e: DaemonSpec) -> Seq<char> {
    "PID: "@ + decimal(e.pid as nat) + " | Command: "@ + e.command + " | Log: "@ + e.log_file
}

/// The listing of the live daemons.
pub open spec fn daemon_lines(s: Seq<DaemonSpec>) -> Seq<char>
    decreases s.len(),
{
    if s.len() == 0 {
        Seq::empty()
    } else if s.len() == 1 {
        daemon_line(s[0])
    } else {
        daemon_lines(s.drop_last()) + seq!['\n'] + daemon_line(s.last())
    }
}

pub open spec fn spec_daemon_listing(live: Seq<DaemonSpec>) -> Seq<char> {
    if live.len() == 0 {
        "No active daemons managed by HIVE."@
    } else {
        "--- Active HIVE Daemons ---\n"@ + daemon_lines(live)
    }
}

impl DaemonTable {
    /// Forget the daemons found dead and list the live ones.  `pids` are the
    /// table's process ids, each once, in the order to list them, and
    /// `alive[i]` tells whether process `pids[i]` still runs.
    pub fn prune_and_list(&mut self, pids: &Vec<u32>, alive: &Vec<bool>) -> (r: String)
        requires
            pids@.no_duplicates(),
            pids@.to_set() == old(self).map().dom(),
            alive@.len() == pids@.len(),
        ensures
            final(self).map() == old(self).map().remove_keys(dead_pids(pids@, alive@)),
            r@ == spec_daemon_listing(live_entries(old(self).map(), pids@, alive@)),
    {
        let ghost m0 = self.map();
        let ghost ps = pids@;
        let ghost al = alive@;
        let mut o: Vec<char> = Vec::new();
        let mut i: usize = 0;
        assert(ps.subrange(0, 0) =~= Seq::<u32>::empty());
        assert(al.subrange(0, 0) =~= Seq::<bool>::empty());
        assert(m0.remove_keys(Set::empty()) =~= m0);
        while i < pids.len()
            invariant
                i <= ps.len(),
                ps == pids@,
                al == alive@,
                al.len() == ps.len(),
                ps.no_duplicates(),
                ps.to_set() == m0.dom(),
                self.map() == m0.remove_keys(dead_pids(ps.subrange(0, i as int), al.subrange(0, i as int))),
                o@ == daemon_lines(live_entries(m0, ps.subrange(0, i as int), al.subrange(0, i as int))),
            decreases pids.len() - i,
        {
            let pid = pids[i];
            let ghost pre = ps.subrange(0, i as int);
            let ghost apre = al.subrange(0, i as int);
            assert(ps.subrange(0, i + 1).drop_last() =~= pre);
            assert(al.subrange(0, i + 1).drop_last() =~= apre);
            assert(ps.subrange(0, i + 1).last() == pid);
            assert(ps.contains(pid));
            assert(m0.dom().contains(pid));
            assert(!dead_pids(pre, apre).contains(pid)) by {
                if dead_pids(pre, apre).contains(pid) {
                    lemma_dead_pids(pre, apre, pid);
                    let j = choose|j: int| 0 <= j < pre.len() && pre[j] == pid;
                    assert(ps[j] == ps[i as int]);
                }
            }
            let ghost before = live_entries(m0, pre, apre);
            if alive[i] {
                let entry = self.get(pid);
                assert(entry is Some);
                let (command, log_file) = entry.unwrap();
                proof {
                    if live_pids(pre, apre).len() > 0 {
                        lemma_daemon_lines_nonempty(before);
                    }
                }
                if o.len() > 0 {
                    o.push('\n');
                }
                append_str(&mut o, "PID: ");
                let d = decimal_chars(pid as u64);
                append_chars(&mut o, d.as_slice());
                append_str(&mut o, " | Command: ");
                append_str(&mut o, command.as_str());
                append_str(&mut o, " | Log: ");
                append_str(&mut o, log_file.as_str());
                let ghost after = live_entries(m0, ps.subrange(0, i + 1), al.subrange(0, i + 1));
                assert(live_pids(ps.subrange(0, i + 1), al.subrange(0, i + 1)) == live_pids(pre, apre).push(pid));
                assert(after =~= before.push(DaemonSpec { pid, command: m0[pid].0, log_file: m0[pid].1 }));
                assert(after.drop_last() =~= before);
                assert(o@ =~= daemon_lines(after));
                assert(dead_pids(ps.subrange(0, i + 1), al.subrange(0, i + 1)) == dead_pids(pre, apre));
            } else {
                let ghost mb = self.map();
                self.remove(pid);
                assert(dead_pids(ps.subrange(0, i + 1), al.subrange(0, i + 1)) == dead_pids(pre, apre).insert(pid));
                assert(self.map() =~= m0.remove_keys(dead_pids(pre, apre).insert(pid)));
                assert(live_entries(m0, ps.subrange(0, i + 1), al.subrange(0, i + 1)) =~= before);
            }
            i = i + 1;
        }
        assert(ps.subrange(0, ps.len() as int) =~= ps);
        assert(al.subrange(0, al.len() as int) =~= al);
        if o.len() == 0 {
            proof {
                let l = live_entries(m0, ps, al);
                if l.len() > 0 {
                    lemma_daemon_lines_nonempty(l);
                }
            }
            return owned("No active daemons managed by HIVE.");
        }
        let mut out: Vec<char> = Vec::new();
        append_str(&mut out, "--- Active HIVE Daemons ---\n");
        append_chars(&mut out, o.as_slice());
        string_of(out.as_slice())
    }
}

/// The listing of at least one daemon is not empty.
proof fn lemma_daemon_lines_nonempty(s: Seq<DaemonSpec>)
    requires
        s.len() > 0,
    ensures
        daemon_lines(s).len() > 0,
    decreases s.len(),
{
    reveal_strlit("PID: ");
    assert("PID: "@.len() == 5);
    if s.len() > 1 {
        lemma_daemon_lines_nonempty(s.drop_last());
    }
}

// ───────────────────────── requests ─────────────────────────

/// A request to the process manager.
pub enum ProcessCommand {
    /// Run a shell command and wait for it.
    Execute { command: String },
    /// Start a shell command in the background.
    Daemon { command: String },
    /// List the live daemons.
    List,
    /// Show the last `lines` lines of a daemon's log (`pid` is `None` when the
    /// given id is not a number).
    Read { pid: Option<u32>, lines: usize },
    /// Kill a daemon (`pid` as for `Read`).
    Kill { pid: Option<u32> },
    /// An action the manager does not offer.
    Unknown { action: String },
}

/// The abstract value of a [`ProcessCommand`].
pub enum ProcessSpec {
    Execute(Seq<char>),
    Daemon(Seq<char>),
    List,
    Read(Option<u32>, nat),
    Kill(Option<u32>),
    Unknown(Seq<char>),
}

impl View for ProcessCommand {
    type V = ProcessSpec;

    open spec fn view(&self) -> ProcessSpec {
        match self {
            ProcessCommand::Execute { command } => ProcessSpec::Execute(command@),
            ProcessCommand::Daemon { command } => ProcessSpec::Daemon(command@),
            ProcessCommand::List => ProcessSpec::List,
            ProcessCommand::Read { pid, lines } => ProcessSpec::Read(*pid, *lines as nat),
            ProcessCommand::Kill { pid } => ProcessSpec::Kill(*pid),
            ProcessCommand::Unknown { action } => ProcessSpec::Unknown(action@),
        }
    }
}

/// A process id written as a `u32`.
pub open spec fn spec_pid(t: Seq<char>) -> Option<u32> {
    match spec_parse_unsigned(t, u32::MAX as nat) {
        Some(v) => Some(v as u32),
        None => None,
    }
}

/// The request `desc` makes; its action is the `action:` tag, `execute` by
/// default.
pub open spec fn spec_process_command(desc: Seq<char>) -> Result<ProcessSpec, (Seq<char>, Seq<char>)> {
    let action = or_default(spec_extract_tag(desc, "action:"@), "execute"@);
    let pid = or_default(spec_extract_tag(desc, "pid:"@), Seq::empty());
    if action == "execute"@ {
        Ok(ProcessSpec::Execute(or_default(spec_extract_tag(desc, "command:"@), desc)))
    } else if action == "daemon"@ {
        let c = or_default(spec_extract_tag(desc, "command:"@), Seq::empty());
        if c.len() == 0 {
            Err(("Error: Missing command:[...]"@, "Missing params"@))
        } else {
            Ok(ProcessSpec::Daemon(c))
        }
    } else if action == "list"@ {
        Ok(ProcessSpec::List)
    } else if action == "read"@ || action == "kill"@ {
        if pid.len() == 0 {
            Err(("Error: Missing pid:[...]"@, "Missing params"@))
        } else if action == "read"@ {
            let lines = match spec_parse_unsigned(
                or_default(spec_extract_tag(desc, "lines:"@), "100"@),
                usize::MAX as nat,
            ) {
                Some(n) => n,
                None => 100,
            };
            Ok(ProcessSpec::Read(spec_pid(pid), lines))
        } else {
            Ok(ProcessSpec::Kill(spec_pid(pid)))
        }
    } else {
        Ok(ProcessSpec::Unknown(action))
    }
}

fn tag_or(d: &[char], tag: &str, dflt: &[char]) -> (r: Vec<char>)
    ensures
        r@ == or_default(spec_extract_tag(d@, tag@), dflt@),
{
    let g = chars_of(tag);
    match extract_tag_chars(d, g.as_slice()) {
        Some(v) => v,
        None => slice_copy(dflt, 0, dflt.len()),
    }
}

fn pid_of(t: &[char]) -> (r: Option<u32>)
    ensures
        r == spec_pid(t@),
{
    parse_u32(t)
}

/// The process manager request that `desc` makes.
pub fn parse_process_command(desc: &str) -> (r: Result<ProcessCommand, ToolError>)
    ensures
        match spec_process_command(desc@) {
            Ok(c) => r matches Ok(x) && x@ == c,
            Err((o, m)) => r matches Err(e) && e.output@ == o && e.reason@ == m,
        },
{
    let dv = chars_of(desc);
    let d = dv.as_slice();
    let dflt_action = chars_of("execute");
    let action_v = tag_or(d, "action:", dflt_action.as_slice());
    let action = string_of(action_v.as_slice());
    let a = action.as_str();
    let empty: Vec<char> = Vec::new();
    let pid = tag_or(d, "pid:", empty.as_slice());
    assert(empty@ =~= Seq::<char>::empty());
    if str_eq(a, "execute") {
        let c = tag_or(d, "command:", d);
        Ok(ProcessCommand::Execute { command: string_of(c.as_slice()) })
    } else if str_eq(a, "daemon") {
        let c = tag_or(d, "command:", empty.as_slice());
        if c.len() == 0 {
            Err(tool_error("Error: Missing command:[...]", "Missing params"))
        } else {
            Ok(ProcessCommand::Daemon { command: string_of(c.as_slice()) })
        }
    } else if str_eq(a, "list") {
        Ok(ProcessCommand::List)
    } else if str_eq(a, "read") || str_eq(a, "kill") {
        if pid.len() == 0 {
            Err(tool_error("Error: Missing pid:[...]", "Missing params"))
        } else if str_eq(a, "read") {
            let dl = chars_of("100");
            let l = tag_or(d, "lines:", dl.as_slice());
            let lines = match parse_usize(l.as_slice()) {
                Some(n) => n,
                None => 100,
            };
            Ok(ProcessCommand::Read { pid: pid_of(pid.as_slice()), lines })
        } else {
            Ok(ProcessCommand::Kill { pid: pid_of(pid.as_slice()) })
        }
    } else {
        Ok(ProcessCommand::Unknown { action })
    }
}

// ───────────────────────── reports ─────────────────────────

/// The answer to a `read` or `kill` whose process id is not a number.
pub const INVALID_PID_TEXT: &'static str = "Invalid PID format.";

/// The answer to an action the manager does not offer.
pub fn unknown_action_text(action: &str) -> (r: String)
    ensures
        r@ == "Unknown action: "@ + action@ + ". Valid actions: execute, daemon, list, read, kill."@,
{
    let mut o: Vec<char> = Vec::new();
    append_str(&mut o, "Unknown action: ");
    append_str(&mut o, action);
    append_str(&mut o, ". Valid actions: execute, daemon, list, read, kill.");
    string_of(o.as_slice())
}

/// How a waited-for command ended.
pub enum ProcessOutcome {
    /// It ran to the end; `status` is its exit status as text.
    Exited { success: bool, status: String, stdout: String, stderr: String },
    IoError { message: String },
    TimedOut,
    SpawnFailed { message: String },
}

/// The report of a waited-for command.
pub open spec fn spec_execute_report(o: ProcessOutcome) -> Seq<char> {
    match o {
        ProcessOutcome::Exited { success, status, stdout, stderr } => if success {
            "Command Succeeded.\nSTDOUT:\n"@ + stdout@ + if stderr@.len() == 0 {
                Seq::empty()
            } else {
                "\nSTDERR:\n"@ + stderr@
            }
        } else {
            "Command Failed ("@ + status@ + ").\nSTDOUT:\n"@ + stdout@ + "\nSTDERR:\n"@ + stderr@
        },
        ProcessOutcome::IoError { message } => "I/O Error waiting for command: "@ + message@,
        ProcessOutcome::TimedOut => "Execution Timeout: Process exceeded 30 seconds and was terminated."@,
        ProcessOutcome::SpawnFailed { message } => "Failed to spawn command: "@ + message@,
    }
}

/// The report of a waited-for command.
pub fn execute_report(o: &ProcessOutcome) -> (r: String)
    ensures
        r@ == spec_execute_report(*o),
{
    let mut m: Vec<char> = Vec::new();
    match o {
        ProcessOutcome::Exited { success, status, stdout, stderr } => {
            if *success {
                append_str(&mut m, "Command Succeeded.\nSTDOUT:\n");
                append_str(&mut m, stdout.as_str());
                if stderr.as_str().unicode_len() > 0 {
                    append_str(&mut m, "\nSTDERR:\n");
                    append_str(&mut m, stderr.as_str());
                }
            } else {
                append_str(&mut m, "Command Failed (");
                append_str(&mut m, status.as_str());
                append_str(&mut m, ").\nSTDOUT:\n");
                append_str(&mut m, stdout.as_str());
                append_str(&mut m, "\nSTDERR:\n");
                append_str(&mut m, stderr.as_str());
            }
        },
        ProcessOutcome::IoError { message } => {
            append_str(&mut m, "I/O Error waiting for command: ");
            append_str(&mut m, message.as_str());
        },
        ProcessOutcome::TimedOut => {
            append_str(&mut m, "Execution Timeout: Process exceeded 30 seconds and was terminated.");
        },
        ProcessOutcome::SpawnFailed { message } => {
            append_str(&mut m, "Failed to spawn command: ");
            append_str(&mut m, message.as_str());
        },
    }
    string_of(m.as_slice())
}

/// The log file of a daemon started at `timestamp` (seconds since the epoch).
pub open spec fn spec_daemon_log_path(timestamp: int) -> Seq<char> {
    "memory/daemons/daemon_"@ + signed_decimal(timestamp) + ".log"@
}

/// The log file of a daemon started at `timestamp`.
pub fn daemon_log_path(timestamp: i64) -> (r: String)
    ensures
        r@ == spec_daemon_log_path(timestamp as int),
{
    let mut o: Vec<char> = Vec::new();
    append_str(&mut o, "memory/daemons/daemon_");
    let d = signed_decimal_chars(timestamp);
    append_chars(&mut o, d.as_slice());
    append_str(&mut o, ".log");
    string_of(o.as_slice())
}

/// The shell line that starts `command` in the background, its output going
/// to `log_file`, and prints its process id.
pub fn daemon_shell_line(command: &str, log_file: &str) -> (r: String)
    ensures
        r@ == "nohup "@ + command@ + " > "@ + log_file@ + " 2>&1 & echo $!"@,
{
    let mut o: Vec<char> = Vec::new();
    append_str(&mut o, "nohup ");
    append_str(&mut o, command);
    append_str(&mut o, " > ");
    append_str(&mut o, log_file);
    append_str(&mut o, " 2>&1 & echo $!");
    string_of(o.as_slice())
}

/// Record a daemon from what its start printed (its process id): the table
/// gains it when the printed text, trimmed, is a `u32`.
pub fn record_daemon(table: &mut DaemonTable, command: &str, log_file: &str, printed: &str) -> (r: String)
    ensures
        match spec_pid(trim(printed@)) {
            Some(pid) => final(table).map() == old(table).map().insert(pid, (command@, log_file@))
                && r@ == "Daemon started successfully.\nPID: "@ + decimal(pid as nat) + "\nCommand: "@
                + command@ + "\nLog File: "@ + log_file@,
            None => final(table).map() == old(table).map() && r@
                == "Failed to parse PID from background spawn: "@ + trim(printed@),
        },
{
    let p = chars_of(printed);
    let t = trim_exec(p.as_slice());
    let mut o: Vec<char> = Vec::new();
    match pid_of(t.as_slice()) {
        Some(pid) => {
            table.insert(pid, owned(command), owned(log_file));
            append_str(&mut o, "Daemon started successfully.\nPID: ");
            let d = decimal_chars(pid as u64);
            append_chars(&mut o, d.as_slice());
            append_str(&mut o, "\nCommand: ");
            append_str(&mut o, command);
            append_str(&mut o, "\nLog File: ");
            append_str(&mut o, log_file);
        },
        None => {
            append_str(&mut o, "Failed to parse PID from background spawn: ");
            append_chars(&mut o, t.as_slice());
        },
    }
    string_of(o.as_slice())
}

/// The answer to a log request for process `pid`, given the log's content
/// (`None` when it could not be read).
pub open spec fn spec_log_report(
    pid: u32,
    entry: Option<(Seq<char>, Seq<char>)>,
    content: Option<Seq<char>>,
    limit: nat,
) -> Seq<char> {
    match entry {
        None => "Error: PID "@ + decimal(pid as nat) + " is not managed by the HIVE Process Manager."@,
        Some((cmd, path)) => match content {
            Some(c) => "--- Daemon Logs PID "@ + decimal(pid as nat) + " ("@ + cmd + ") ---\n"@
                + spec_log_tail(c, limit),
            None => "Error: Log file "@ + path + " not found or cannot be read."@,
        },
    }
}

/// The answer to a log request for process `pid`, whose table entry is
/// `entry` (command and log file) and whose log read gave `content`.
pub fn log_report(pid: u32, entry: Option<(String, String)>, content: Option<String>, limit: usize) -> (r: String)
    ensures
        r@ == spec_log_report(
            pid,
            match entry {
                Some((c, p)) => Some((c@, p@)),
                None => None,
            },
            match content {
                Some(c) => Some(c@),
                None => None,
            },
            limit as nat,
        ),
{
    let mut o: Vec<char> = Vec::new();
    let d = decimal_chars(pid as u64);
    match entry {
        None => {
            append_str(&mut o, "Error: PID ");
            append_chars(&mut o, d.as_slice());
            append_str(&mut o, " is not managed by the HIVE Process Manager.");
        },
        Some((cmd, path)) => match content {
            Some(c) => {
                append_str(&mut o, "--- Daemon Logs PID ");
                append_chars(&mut o, d.as_slice());
                append_str(&mut o, " (");
                append_str(&mut o, cmd.as_str());
                append_str(&mut o, ") ---\n");
                let t = log_tail(c.as_str(), limit);
                append_str(&mut o, t.as_str());
            },
            None => {
                append_str(&mut o, "Error: Log file ");
                append_str(&mut o, path.as_str());
                append_str(&mut o, " not found or cannot be read.");
            },
        },
    }
    string_of(o.as_slice())
}

/// Forget a killed daemon; the answer to the kill.
pub fn record_kill(table: &mut DaemonTable, pid: u32) -> (r: String)
    ensures
        final(table).map() == old(table).map().remove(pid),
        r@ == "Force killed Daemon PID "@ + decimal(pid as nat) + "."@,
{
    table.remove(pid);
    let mut o: Vec<char> = Vec::new();
    append_str(&mut o, "Force killed Daemon PID ");
    let d = decimal_chars(pid as u64);
    append_chars(&mut o, d.as_slice());
    append_str(&mut o, ".");
    string_of(o.as_slice())
}

} // verus!
