//! The agent's own records: the autonomy activity log, the system log, the
//! reasoning traces of the timeline, and the working-context report.  The
//! files are read outside this crate; what is shown of them is decided here.
use vstd::prelude::*;
use crate::containment::{lowercase, to_lowercase};
use crate::contributors::nonblank;
use crate::fmt::{decimal, decimal_chars, decimal_u128};
use crate::models::{tool_error, ToolError};
use crate::params::or_default;
use crate::process::{join_lines, lines_of, log_tail, spec_log_tail, text_lines};
use crate::tags::{extract_tag_chars, spec_extract_tag};
use crate::text::{
    append_chars, append_str, chars_of, contains, contains_exec, find, find_exec, owned, parse_usize,
    slice_copy, spec_parse_unsigned, str_eq, string_of, tail, trim, trim_exec,
};

verus! {

// ───────────────────────── numbers given as `name:[n]` ─────────────────────────

/// What `desc.split(m).nth(1)` then `.split(']').next()` gives: the text
/// after the first `m`, up to the next `m` and then to the first `]`.
pub open spec fn split_value(desc: Seq<char>, m: Seq<char>) -> Option<Seq<char>> {
    match find(desc, m) {
        Some(i) => {
            let rest = tail(desc, i + m.len());
            let seg = rest.subrange(
                0,
                match find(rest, m) {
                    Some(j) => j,
                    None => rest.len() as int,
                },
            );
            Some(
                seg.subrange(
                    0,
                    match find(seg, "]"@) {
                        Some(k) => k,
                        None => seg.len() as int,
                    },
                ),
            )
        },
        None => None,
    }
}

/// The number written after the marker `m`, or `d` when there is none or it
/// is not a `usize`.
pub open spec fn split_number(desc: Seq<char>, m: Seq<char>, d: nat) -> nat {
    match split_value(desc, m) {
        Some(v) => match spec_parse_unsigned(v, usize::MAX as nat) {
            Some(n) => n,
            None => d,
        },
        None => d,
    }
}

fn prefix_before(s: &[char], p: &[char]) -> (r: Vec<char>)
    ensures
        r@ == s@.subrange(
            0,
            match find(s@, p@) {
                Some(j) => j,
                None => s@.len() as int,
            },
        ),
{
    match find_exec(s, p) {
        Some(j) => slice_copy(s, 0, j),
        None => slice_copy(s, 0, s.len()),
    }
}

fn split_number_exec(d: &[char], m: &str, dflt: usize) -> (r: usize)
    ensures
        r as nat == split_number(d@, m@, dflt as nat),
{
    let mv = chars_of(m);
    match find_exec(d, mv.as_slice()) {
        Some(i) => {
            proof {
                crate::text::lemma_find_spec(d@, mv@);
            }
            let ml = mv.len();
            assert(i + ml <= d.len());
            let rest = slice_copy(d, i + ml, d.len());
            assert(rest@ =~= tail(d@, i + m@.len()));
            let seg = prefix_before(rest.as_slice(), mv.as_slice());
            let close = chars_of("]");
            let v = prefix_before(seg.as_slice(), close.as_slice());
            match parse_usize(v.as_slice()) {
                Some(n) => n,
                None => dflt,
            }
        },
        None => dflt,
    }
}

// ───────────────────────── the autonomy activity log ─────────────────────────

/// The answer when the activity log cannot be read.
pub const NO_ACTIVITY_LOG_TEXT: &'static str = "No autonomous activity recorded yet. The autonomy log is empty.";

/// Whether a request asks for the day's summary rather than the latest
/// entries.
pub fn wants_summary(desc: &str) -> (r: bool)
    ensures
        r == contains(desc@, "action:[summary]"@),
{
    let d = chars_of(desc);
    let p = chars_of("action:[summary]");
    contains_exec(d.as_slice(), p.as_slice())
}

/// The latest entries of the activity log `content`: the last `count:[n]`
/// (10 by default) non-blank lines.
pub open spec fn spec_recent_activity(content: Seq<char>, desc: Seq<char>) -> Seq<char> {
    let es = nonblank(text_lines(content));
    let n = split_number(desc, "count:["@, 10);
    let start = if es.len() > n { es.len() - n } else { 0 };
    let out = join_lines(es.subrange(start as int, es.len() as int));
    if out.len() == 0 {
        "No autonomous activity recorded yet."@
    } else {
        out
    }
}

/// The latest entries of the activity log.
pub fn recent_activity(content: &str, desc: &str) -> (r: String)
    ensures
        r@ == spec_recent_activity(content@, desc@),
{
    let c = chars_of(content);
    let all = lines_of(c.as_slice());
    let ghost al = text_lines(content@);
    let mut kept: Vec<char> = Vec::new();
    let mut es: Vec<Vec<char>> = Vec::new();
    let mut i: usize = 0;
    while i < all.len()
        invariant
            i <= all@.len(),
            al == text_lines(content@),
            all@.len() == al.len(),
            forall|k: int| 0 <= k < all@.len() ==> #[trigger] all@[k]@ == al[k],
            es@.len() == nonblank(al.subrange(0, i as int)).len(),
            forall|k: int| 0 <= k < es@.len() ==> #[trigger] es@[k]@ == nonblank(al.subrange(0, i as int))[k],
        decreases all.len() - i,
    {
        let ghost pre = al.subrange(0, i as int);
        assert(al.subrange(0, i + 1).drop_last() =~= pre);
        assert(al.subrange(0, i + 1).last() == all@[i as int]@);
        let t = trim_exec(all[i].as_slice());
        if t.len() > 0 {
            es.push(slice_copy(all[i].as_slice(), 0, all[i].len()));
        }
        i = i + 1;
    }
    assert(al.subrange(0, al.len() as int) =~= al);
    let dv = chars_of(desc);
    let n = split_number_exec(dv.as_slice(), "count:[", 10);
    let total = es.len();
    let start = if total > n { total - n } else { 0 };
    let ghost ns = nonblank(al);
    let ghost sel = ns.subrange(start as int, total as int);
    let mut k: usize = start;
    while k < total
        invariant
            start <= k <= total,
            total == es@.len(),
            ns.len() == total,
            forall|j: int| 0 <= j < es@.len() ==> #[trigger] es@[j]@ == ns[j],
            sel == ns.subrange(start as int, total as int),
            kept@ == join_lines(sel.subrange(0, k - start)),
        decreases total - k,
    {
        let ghost next = sel.subrange(0, k - start + 1);
        assert(next.drop_last() =~= sel.subrange(0, k - start));
        assert(next.last() == es@[k as int]@);
        if k > start {
            kept.push('\n');
        } else {
            assert(next.len() == 1);
        }
        append_chars(&mut kept, es[k].as_slice());
        assert(kept@ =~= join_lines(next));
        k = k + 1;
    }
    assert(sel.subrange(0, total - start) =~= sel);
    if kept.len() == 0 {
        owned("No autonomous activity recorded yet.")
    } else {
        string_of(kept.as_slice())
    }
}

/// One entry of the activity log, as read from its record: when it was
/// written (nanoseconds since the epoch, `None` when absent or unreadable),
/// its turn count (0 when absent), the tools it used and its summary.
pub struct ActivityEntry {
    pub timestamp_ns: Option<i64>,
    pub turn_count: u64,
    pub tools: Vec<String>,
    pub summary: Option<String>,
}

pub open spec fn strs(v: Seq<String>) -> Seq<Seq<char>> {
    v.map_values(|s: String| s@)
}

/// An entry counts for the summary unless it was written before `cutoff`.
pub open spec fn in_window(e: ActivityEntry, cutoff: int) -> bool {
    match e.timestamp_ns {
        Some(t) => t >= cutoff,
        None => true,
    }
}

/// The entries of the last day.
pub open spec fn in_day(es: Seq<ActivityEntry>, cutoff: int) -> Seq<ActivityEntry>
    decreases es.len(),
{
    if es.len() == 0 {
        es
    } else {
        let p = in_day(es.drop_last(), cutoff);
        if in_window(es.last(), cutoff) {
            p.push(es.last())
        } else {
            p
        }
    }
}

/// The total of the turn counts.
pub open spec fn turns_of(es: Seq<ActivityEntry>) -> nat
    decreases es.len(),
{
    if es.len() == 0 {
        0
    } else {
        turns_of(es.drop_last()) + es.last().turn_count as nat
    }
}

/// `acc` followed by the names of `ts` it does not hold yet, each once.
pub open spec fn add_new(acc: Seq<Seq<char>>, ts: Seq<Seq<char>>) -> Seq<Seq<char>>
    decreases ts.len(),
{
    if ts.len() == 0 {
        acc
    } else {
        let a = add_new(acc, ts.drop_last());
        if a.contains(ts.last()) {
            a
        } else {
            a.push(ts.last())
        }
    }
}

/// The tools the entries used, each once, in order of first use.
pub open spec fn tools_of(es: Seq<ActivityEntry>) -> Seq<Seq<char>>
    decreases es.len(),
{
    if es.len() == 0 {
        Seq::empty()
    } else {
        add_new(tools_of(es.drop_last()), strs(es.last().tools@))
    }
}

/// The summaries of the entries that have one.
pub open spec fn summaries_of(es: Seq<ActivityEntry>) -> Seq<Seq<char>>
    decreases es.len(),
{
    if es.len() == 0 {
        Seq::empty()
    } else {
        match es.last().summary {
            Some(s) => summaries_of(es.drop_last()).push(s@),
            None => summaries_of(es.drop_last()),
        }
    }
}

/// Names joined with `, `.
pub open spec fn comma_joined(ls: Seq<Seq<char>>) -> Seq<char>
    decreases ls.len(),
{
    if ls.len() == 0 {
        Seq::empty()
    } else if ls.len() == 1 {
        ls[0]
    } else {
        comma_joined(ls.drop_last()) + ", "@ + ls.last()
    }
}

/// The numbered highlights `1. s`, one per line.
pub open spec fn highlights(ls: Seq<Seq<char>>) -> Seq<char>
    decreases ls.len(),
{
    if ls.len() == 0 {
        Seq::empty()
    } else if ls.len() == 1 {
        "1. "@ + ls[0]
    } else {
        highlights(ls.drop_last()) + "\n"@ + decimal(ls.len()) + ". "@ + ls.last()
    }
}

/// The summary of the day before `now_ns` (nanoseconds since the epoch):
/// the sessions, turns, tools (each once, in order of first use) and
/// highlights of the entries written in the last 24 hours.
pub open spec fn spec_activity_summary(es: Seq<ActivityEntry>, now_ns: int) -> Seq<char> {
    let day = in_day(es, now_ns - 86_400_000_000_000);
    if day.len() == 0 {
        "No autonomous activity in the last 24 hours."@
    } else {
        "📊 **Autonomy Summary (Last 24h)**\n• Sessions: "@ + decimal(day.len()) + "\n• Total turns used: "@
            + decimal(turns_of(day)) + "\n• Tools exercised: "@ + comma_joined(tools_of(day))
            + "\n\n**Session Highlights:**\n"@ + highlights(summaries_of(day))
    }
}

fn holds_name(names: &Vec<String>, t: &str) -> (r: bool)
    ensures
        r == strs(names@).contains(t@),
{
    let mut i: usize = 0;
    while i < names.len()
        invariant
            i <= names@.len(),
            forall|k: int| 0 <= k < i ==> strs(names@)[k] != t@,
        decreases names.len() - i,
    {
        if str_eq(names[i].as_str(), t) {
            assert(strs(names@)[i as int] == t@);
            return true;
        }
        i = i + 1;
    }
    false
}

fn add_new_exec(acc: &mut Vec<String>, ts: &Vec<String>)
    ensures
        strs(final(acc)@) == add_new(strs(old(acc)@), strs(ts@)),
{
    let ghost a0 = strs(acc@);
    let mut i: usize = 0;
    while i < ts.len()
        invariant
            i <= ts@.len(),
            strs(acc@) == add_new(a0, strs(ts@).subrange(0, i as int)),
        decreases ts.len() - i,
    {
        let ghost pre = strs(ts@).subrange(0, i as int);
        assert(strs(ts@).subrange(0, i + 1).drop_last() =~= pre);
        assert(strs(ts@).subrange(0, i + 1).last() == ts@[i as int]@);
        if !holds_name(acc, ts[i].as_str()) {
            let ghost before = acc@;
            acc.push(ts[i].clone());
            assert(strs(acc@) =~= strs(before).push(ts@[i as int]@));
        }
        i = i + 1;
    }
    assert(strs(ts@).subrange(0, ts@.len() as int) =~= strs(ts@));
}

/// The summary of the day's autonomous activity.
pub fn activity_summary(entries: &Vec<ActivityEntry>, now_ns: i64) -> (r: String)
    ensures
        r@ == spec_activity_summary(entries@, now_ns as int),
{
    let cutoff: i128 = (now_ns as i128) - 86_400_000_000_000i128;
    let ghost es = entries@;
    let mut sessions: usize = 0;
    let mut turns: u128 = 0;
    let mut tools: Vec<String> = Vec::new();
    let mut lines: Vec<char> = Vec::new();
    let mut count: usize = 0;
    let mut i: usize = 0;
    while i < entries.len()
        invariant
            i <= es.len(),
            es == entries@,
            cutoff == now_ns - 86_400_000_000_000,
            sessions == in_day(es.subrange(0, i as int), cutoff as int).len(),
            sessions <= i,
            turns == turns_of(in_day(es.subrange(0, i as int), cutoff as int)),
            turns <= i * 0x1_0000_0000_0000_0000,
            strs(tools@) == tools_of(in_day(es.subrange(0, i as int), cutoff as int)),
            count == summaries_of(in_day(es.subrange(0, i as int), cutoff as int)).len(),
            count <= i,
            lines@ == highlights(summaries_of(in_day(es.subrange(0, i as int), cutoff as int))),
        decreases entries.len() - i,
    {
        let ghost pre = es.subrange(0, i as int);
        assert(es.subrange(0, i + 1).drop_last() =~= pre);
        assert(es.subrange(0, i + 1).last() == es[i as int]);
        let e = &entries[i];
        let ghost d0 = in_day(pre, cutoff as int);
        proof {
            assert(d0.push(es[i as int]).drop_last() =~= d0);
        }
        let keep = match e.timestamp_ns {
            Some(t) => (t as i128) >= cutoff,
            None => true,
        };
        if keep {
            sessions = sessions + 1;
            turns = turns + e.turn_count as u128;
            add_new_exec(&mut tools, &e.tools);
            match &e.summary {
                Some(s) => {
                    let ghost sl = summaries_of(d0);
                    let ghost before = lines@;
                    count = count + 1;
                    if count > 1 {
                        append_str(&mut lines, "\n");
                    }
                    let d = decimal_chars(count as u64);
                    append_chars(&mut lines, d.as_slice());
                    append_str(&mut lines, ". ");
                    append_str(&mut lines, s.as_str());
                    proof {
                        let nl = sl.push(s@);
                        assert(nl.drop_last() =~= sl);
                        assert(nl.last() == s@);
                        assert(nl.len() == count);
                        if count == 1 {
                            reveal_strlit("1. ");
                            reveal_strlit(". ");
                            assert(decimal(1) == seq!['1']) by {
                                reveal_with_fuel(decimal, 2);
                            }
                            assert(lines@ =~= highlights(nl));
                        } else {
                            assert(lines@ =~= highlights(nl));
                        }
                    }
                },
                None => {},
            }
        }
        proof {
            assert(turns <= (i + 1) * 0x1_0000_0000_0000_0000) by (nonlinear_arith)
                requires
                    turns <= i * 0x1_0000_0000_0000_0000 + 0x1_0000_0000_0000_0000,
            ;
        }
        i = i + 1;
    }
    assert(es.subrange(0, es.len() as int) =~= es);
    if sessions == 0 {
        return owned("No autonomous activity in the last 24 hours.");
    }
    let mut o = chars_of("📊 **Autonomy Summary (Last 24h)**\n• Sessions: ");
    let s = decimal_chars(sessions as u64);
    append_chars(&mut o, s.as_slice());
    append_str(&mut o, "\n• Total turns used: ");
    let t = decimal_u128(turns);
    append_chars(&mut o, t.as_slice());
    append_str(&mut o, "\n• Tools exercised: ");
    let ghost names = strs(tools@);
    let mut k: usize = 0;
    let mut joined: Vec<char> = Vec::new();
    while k < tools.len()
        invariant
            k <= tools@.len(),
            names == strs(tools@),
            joined@ == comma_joined(names.subrange(0, k as int)),
        decreases tools.len() - k,
    {
        let ghost next = names.subrange(0, k + 1);
        assert(next.drop_last() =~= names.subrange(0, k as int));
        assert(next.last() == tools@[k as int]@);
        if k > 0 {
            append_str(&mut joined, ", ");
        } else {
            assert(next.len() == 1);
        }
        append_str(&mut joined, tools[k].as_str());
        k = k + 1;
    }
    assert(names.subrange(0, names.len() as int) =~= names);
    append_chars(&mut o, joined.as_slice());
    append_str(&mut o, "\n\n**Session Highlights:**\n");
    append_chars(&mut o, lines.as_slice());
    string_of(o.as_slice())
}

// ───────────────────────── the system log ─────────────────────────

/// The answer to a log request: the last `lines:[n]` (50 by default) lines
/// of the log, with a closing note, or a note that the log is empty; a log
/// that could not be read is refused with the reader's message.
pub open spec fn spec_logs_report(content: Result<Seq<char>, Seq<char>>, desc: Seq<char>) -> Result<
    Seq<char>,
    (Seq<char>, Seq<char>),
> {
    match content {
        Ok(c) => {
            let n = split_number(desc, "lines:["@, 50);
            let total = text_lines(c).len();
            let start = if total > n { total - n } else { 0 };
            let out = spec_log_tail(c, n);
            if out.len() == 0 {
                Ok("Log file is empty."@)
            } else {
                Ok(out + "\n\n[LOGS COMPLETE (Tailed "@ + decimal((total - start) as nat) + " lines)]"@)
            }
        },
        Err(e) => Err(("Failed to read logs: "@ + e, e)),
    }
}

/// The answer to a log request.
pub fn logs_report(content: Result<String, String>, desc: &str) -> (r: Result<String, ToolError>)
    ensures
        match spec_logs_report(
            match content {
                Ok(c) => Ok(c@),
                Err(e) => Err(e@),
            },
            desc@,
        ) {
            Ok(m) => r matches Ok(x) && x@ == m,
            Err((o, m)) => r matches Err(e) && e.output@ == o && e.reason@ == m,
        },
{
    match content {
        Ok(c) => {
            let dv = chars_of(desc);
            let n = split_number_exec(dv.as_slice(), "lines:[", 50);
            let cv = chars_of(c.as_str());
            let total = lines_of(cv.as_slice()).len();
            let start = if total > n { total - n } else { 0 };
            let out = log_tail(c.as_str(), n);
            if out.as_str().unicode_len() == 0 {
                return Ok(owned("Log file is empty."));
            }
            let mut o = chars_of(out.as_str());
            append_str(&mut o, "\n\n[LOGS COMPLETE (Tailed ");
            let d = decimal_chars((total - start) as u64);
            append_chars(&mut o, d.as_slice());
            append_str(&mut o, " lines)]");
            Ok(string_of(o.as_slice()))
        },
        Err(e) => {
            let mut o = chars_of("Failed to read logs: ");
            append_str(&mut o, e.as_str());
            Err(ToolError { output: string_of(o.as_slice()), reason: e })
        },
    }
}

// ───────────────────────── reasoning traces ─────────────────────────

/// The answer when the timeline cannot be read.
pub const NO_TIMELINE_TEXT: &'static str = "No persistent timeline found — no reasoning traces available.";

/// A record of the timeline: its author and content, where they are strings.
pub struct TimelineRecord {
    pub author_id: Option<String>,
    pub content: Option<String>,
}

/// The reasoning traces of the records: the content of each record whose
/// author is `internal`.
pub open spec fn traces_of(rs: Seq<TimelineRecord>) -> Seq<Seq<char>>
    decreases rs.len(),
{
    if rs.len() == 0 {
        Seq::empty()
    } else {
        let p = traces_of(rs.drop_last());
        let r = rs.last();
        if r.author_id matches Some(a) && a@ == "internal"@ && r.content is Some {
            p.push(r.content.unwrap()@)
        } else {
            p
        }
    }
}

/// How many traces a request asks for: `limit:[n]`, else `turns_ago:[n]`,
/// else 5.
pub open spec fn trace_limit(desc: Seq<char>) -> nat {
    split_number(desc, "limit:["@, split_number(desc, "turns_ago:["@, 5))
}

/// The blocks of the traces `ts[k]` for `k` from `start`, numbered out of
/// `total`.
pub open spec fn trace_blocks(ts: Seq<Seq<char>>, start: nat, total: nat) -> Seq<char>
    decreases ts.len(),
{
    if ts.len() == 0 {
        Seq::empty()
    } else {
        trace_blocks(ts.drop_last(), start, total) + "--- REASONING TRACE "@ + decimal(start + ts.len())
            + " of "@ + decimal(total) + " ---\n"@ + ts.last() + "\n\n"@
    }
}

/// The answer to a reasoning review: the latest traces, oldest first.
pub open spec fn spec_reasoning_review(rs: Seq<TimelineRecord>, desc: Seq<char>) -> Seq<char> {
    let ts = traces_of(rs);
    let n = trace_limit(desc);
    if ts.len() == 0 {
        "No reasoning traces found in the persistent timeline."@
    } else {
        let start: nat = if ts.len() > n { (ts.len() - n) as nat } else { 0 };
        trace_blocks(ts.subrange(start as int, ts.len() as int), start, ts.len())
    }
}

/// The answer to a reasoning review of the timeline's records.
pub fn reasoning_review(records: &Vec<TimelineRecord>, desc: &str) -> (r: String)
    ensures
        r@ == spec_reasoning_review(records@, desc@),
{
    let ghost rs = records@;
    let mut ts: Vec<String> = Vec::new();
    let mut i: usize = 0;
    while i < records.len()
        invariant
            i <= rs.len(),
            rs == records@,
            strs(ts@) == traces_of(rs.subrange(0, i as int)),
            ts@.len() <= i,
        decreases records.len() - i,
    {
        assert(rs.subrange(0, i + 1).drop_last() =~= rs.subrange(0, i as int));
        assert(rs.subrange(0, i + 1).last() == rs[i as int]);
        let r = &records[i];
        let internal = match &r.author_id {
            Some(a) => str_eq(a.as_str(), "internal"),
            None => false,
        };
        if internal {
            match &r.content {
                Some(c) => {
                    let ghost before = ts@;
                    ts.push(c.clone());
                    assert(strs(ts@) =~= strs(before).push(c@));
                },
                None => {},
            }
        }
        i = i + 1;
    }
    assert(rs.subrange(0, rs.len() as int) =~= rs);
    if ts.len() == 0 {
        return owned("No reasoning traces found in the persistent timeline.");
    }
    let dv = chars_of(desc);
    let d = dv.as_slice();
    let n0 = split_number_exec(d, "turns_ago:[", 5);
    let n = split_number_exec(d, "limit:[", n0);
    let total = ts.len();
    let start = if total > n { total - n } else { 0 };
    let ghost all = strs(ts@);
    let mut o: Vec<char> = Vec::new();
    let mut k: usize = start;
    while k < total
        invariant
            start <= k <= total,
            total == ts@.len(),
            all == strs(ts@),
            o@ == trace_blocks(all.subrange(start as int, k as int), start as nat, total as nat),
        decreases total - k,
    {
        let ghost next = all.subrange(start as int, k + 1);
        assert(next.drop_last() =~= all.subrange(start as int, k as int));
        assert(next.last() == ts@[k as int]@);
        append_str(&mut o, "--- REASONING TRACE ");
        let a = decimal_chars((k + 1) as u64);
        append_chars(&mut o, a.as_slice());
        append_str(&mut o, " of ");
        let b = decimal_chars(total as u64);
        append_chars(&mut o, b.as_slice());
        append_str(&mut o, " ---\n");
        append_str(&mut o, ts[k].as_str());
        append_str(&mut o, "\n\n");
        assert(start + next.len() == k + 1);
        k = k + 1;
    }
    string_of(o.as_slice())
}

// ───────────────────────── the core memory report ─────────────────────────

/// What a core-memory request asks for.
#[derive(Clone, Copy, Debug, PartialEq, Eq, Structural)]
pub enum CoreMemoryCommand {
    /// The uptime report.
    Temporal,
    /// The working-context report.
    Tokens,
}

/// The request `desc` makes; its action, lower-cased, is required.
pub open spec fn spec_core_memory_command(desc: Seq<char>) -> Result<CoreMemoryCommand, (Seq<char>, Seq<char>)> {
    let a = lowercase(or_default(spec_extract_tag(desc, "action:"@), Seq::empty()));
    if a.len() == 0 {
        Err(("Error: Missing 'action:' field."@, "Missing action field"@))
    } else if a == "temporal"@ {
        Ok(CoreMemoryCommand::Temporal)
    } else if a == "tokens"@ {
        Ok(CoreMemoryCommand::Tokens)
    } else {
        Err(("Unknown action '"@ + a + "'. Valid actions: temporal, tokens."@, "Unknown action"@))
    }
}

/// The core-memory request that `desc` makes.
pub fn parse_core_memory_command(desc: &str) -> (r: Result<CoreMemoryCommand, ToolError>)
    ensures
        match spec_core_memory_command(desc@) {
            Ok(c) => r == Ok::<CoreMemoryCommand, ToolError>(c),
            Err((o, m)) => r matches Err(e) && e.output@ == o && e.reason@ == m,
        },
{
    let dv = chars_of(desc);
    let g = chars_of("action:");
    let raw = match extract_tag_chars(dv.as_slice(), g.as_slice()) {
        Some(v) => string_of(v.as_slice()),
        None => String::new(),
    };
    assert(raw@ == or_default(spec_extract_tag(desc@, "action:"@), Seq::empty())) by {
        reveal_strlit("");
    }
    let a = to_lowercase(raw.as_str());
    if a.as_str().unicode_len() == 0 {
        return Err(tool_error("Error: Missing 'action:' field.", "Missing action field"));
    }
    if str_eq(a.as_str(), "temporal") {
        return Ok(CoreMemoryCommand::Temporal);
    }
    if str_eq(a.as_str(), "tokens") {
        return Ok(CoreMemoryCommand::Tokens);
    }
    let mut o = chars_of("Unknown action '");
    append_str(&mut o, a.as_str());
    append_str(&mut o, "'. Valid actions: temporal, tokens.");
    Err(ToolError { output: string_of(o.as_slice()), reason: owned("Unknown action") })
}

/// The context size the working memory is measured against, in tokens.
pub const CONTEXT_TOKENS: u64 = 120000;

/// The working-context report: the messages in the window, the tokens they
/// take, and `pressure`, that share of 120 000 tokens in percent as the
/// runtime writes it.
pub open spec fn spec_tokens_report(messages: nat, tokens: nat, pressure: Seq<char>) -> Seq<char> {
    "[WORKING CONTEXT WINDOW REPORT]\nActive Messages in Window: "@ + decimal(messages)
        + "\nEstimated Tokens Utilized: ~"@ + decimal(tokens) + "\nContext Pressure: "@ + pressure + "%\n\nIf pressure approaches 100%, older messages are being rolling-evicted to the persistent timeline."@
}

/// The working-context report.  The pressure is a float the runtime computes
/// and formats (`{:.2}` of the tokens over 120 000, times 100); `pressure` is
/// that text.
pub fn tokens_report(messages: usize, tokens: u64, pressure: &str) -> (r: String)
    ensures
        r@ == spec_tokens_report(messages as nat, tokens as nat, pressure@),
{
    let mut o = chars_of("[WORKING CONTEXT WINDOW REPORT]\nActive Messages in Window: ");
    let m = decimal_chars(messages as u64);
    append_chars(&mut o, m.as_slice());
    append_str(&mut o, "\nEstimated Tokens Utilized: ~");
    let t = decimal_chars(tokens);
    append_chars(&mut o, t.as_slice());
    append_str(&mut o, "\nContext Pressure: ");
    append_str(&mut o, pressure);
    append_str(
        &mut o,
        "%\n\nIf pressure approaches 100%, older messages are being rolling-evicted to the persistent timeline.",
    );
    string_of(o.as_slice())
}

} // verus!
