//! The answers of the Turing grid tool, made from what the grid reports.
//! The grid (its cells, cursor, labels and history) and the cell runner are
//! kept outside this crate.
use vstd::prelude::*;
use crate::fmt::{decimal, decimal_chars, signed_decimal, signed_decimal_chars};
use crate::models::ToolError;
use crate::text::{append_chars, append_str, chars_of, owned, slice_copy, string_of};

verus! {

/// The text of a cell position, its numbers separated by `sep`.
pub open spec fn cell_at(x: i32, y: i32, z: i32, sep: Seq<char>) -> Seq<char> {
    "("@ + signed_decimal(x as int) + sep + signed_decimal(y as int) + sep + signed_decimal(z as int) + ")"@
}

fn push_cell(o: &mut Vec<char>, x: i32, y: i32, z: i32, sep: &str)
    ensures
        final(o)@ == old(o)@ + cell_at(x, y, z, sep@),
{
    append_str(o, "(");
    append_chars(o, signed_decimal_chars(x as i64).as_slice());
    append_str(o, sep);
    append_chars(o, signed_decimal_chars(y as i64).as_slice());
    append_str(o, sep);
    append_chars(o, signed_decimal_chars(z as i64).as_slice());
    append_str(o, ")");
}

/// `before`, a cell position, then `after`.
fn around_cell(before: &str, x: i32, y: i32, z: i32, sep: &str, after: &str) -> (r: String)
    ensures
        r@ == before@ + cell_at(x, y, z, sep@) + after@,
{
    let mut o = chars_of(before);
    push_cell(&mut o, x, y, z, sep);
    append_str(&mut o, after);
    string_of(o.as_slice())
}

/// The answer to a move of the head to `(x, y, z)`.
pub fn moved_report(x: i32, y: i32, z: i32) -> (r: String)
    ensures
        r@ == "Moved Read/Write head. Current coordinates: "@ + cell_at(x, y, z, ", "@),
{
    let r = around_cell("Moved Read/Write head. Current coordinates: ", x, y, z, ", ", "");
    assert(""@ =~= Seq::<char>::empty()) by {
        reveal_strlit("");
    }
    assert(r@ =~= "Moved Read/Write head. Current coordinates: "@ + cell_at(x, y, z, ", "@));
    r
}

/// A non-empty cell found by a scan.
pub struct ScanHit {
    pub x: i32,
    pub y: i32,
    pub z: i32,
    pub format: String,
}

pub open spec fn scan_lines(hs: Seq<ScanHit>) -> Seq<char>
    decreases hs.len(),
{
    if hs.len() == 0 {
        Seq::empty()
    } else {
        let h = hs.last();
        scan_lines(hs.drop_last()) + "* Cell "@ + cell_at(h.x, h.y, h.z, ", "@) + " [Format: "@ + h.format@ + "]\n"@
    }
}

/// The answer to a scan of `radius` that found `hits`.
pub open spec fn spec_scan_report(radius: i32, hits: Seq<ScanHit>) -> Seq<char> {
    if hits.len() == 0 {
        "No non-empty cells found within radius "@ + signed_decimal(radius as int) + "."@
    } else {
        "--- Radar Scan (Radius "@ + signed_decimal(radius as int) + "): ---\n"@ + scan_lines(hits)
    }
}

/// The answer to a scan.
pub fn scan_report(radius: i32, hits: &Vec<ScanHit>) -> (r: String)
    ensures
        r@ == spec_scan_report(radius, hits@),
{
    let rd = signed_decimal_chars(radius as i64);
    if hits.len() == 0 {
        let mut o = chars_of("No non-empty cells found within radius ");
        append_chars(&mut o, rd.as_slice());
        append_str(&mut o, ".");
        return string_of(o.as_slice());
    }
    let mut o = chars_of("--- Radar Scan (Radius ");
    append_chars(&mut o, rd.as_slice());
    append_str(&mut o, "): ---\n");
    let ghost head = o@;
    let mut k: usize = 0;
    while k < hits.len()
        invariant
            k <= hits@.len(),
            o@ == head + scan_lines(hits@.subrange(0, k as int)),
        decreases hits.len() - k,
    {
        assert(hits@.subrange(0, k + 1).drop_last() =~= hits@.subrange(0, k as int));
        let h = &hits[k];
        append_str(&mut o, "* Cell ");
        push_cell(&mut o, h.x, h.y, h.z, ", ");
        append_str(&mut o, " [Format: ");
        append_str(&mut o, h.format.as_str());
        append_str(&mut o, "]\n");
        assert(o@ =~= head + scan_lines(hits@.subrange(0, k + 1)));
        k = k + 1;
    }
    assert(hits@.subrange(0, hits@.len() as int) =~= hits@);
    string_of(o.as_slice())
}

/// At most the first `n` characters of `s`, line breaks shown as spaces.
pub open spec fn flat_preview(s: Seq<char>, n: nat) -> Seq<char> {
    let p = if s.len() <= n { s } else { s.subrange(0, n as int) };
    p.map_values(|c: char| if c == '\n' { ' ' } else { c })
}

fn flat_preview_exec(s: &str, n: usize) -> (r: Vec<char>)
    ensures
        r@ == flat_preview(s@, n as nat),
{
    let v = chars_of(s);
    let p = if v.len() <= n { v } else { slice_copy(v.as_slice(), 0, n) };
    let ghost ps = p@;
    let mut o: Vec<char> = Vec::new();
    let mut i: usize = 0;
    while i < p.len()
        invariant
            i <= p@.len(),
            ps == p@,
            o@ == ps.subrange(0, i as int).map_values(|c: char| if c == '\n' { ' ' } else { c }),
        decreases p.len() - i,
    {
        let c = if p[i] == '\n' { ' ' } else { p[i] };
        o.push(c);
        assert(ps.subrange(0, i + 1).map_values(|c: char| if c == '\n' { ' ' } else { c }) =~= ps.subrange(
            0,
            i as int,
        ).map_values(|c: char| if c == '\n' { ' ' } else { c }).push(c));
        i = i + 1;
    }
    assert(ps.subrange(0, ps.len() as int) =~= ps);
    o
}

/// A cell read in a range.
pub struct RangeHit {
    pub x: i32,
    pub y: i32,
    pub z: i32,
    pub format: String,
    pub content: String,
}

pub open spec fn range_lines(hs: Seq<RangeHit>) -> Seq<char>
    decreases hs.len(),
{
    if hs.len() == 0 {
        Seq::empty()
    } else {
        let h = hs.last();
        range_lines(hs.drop_last()) + "* Cell "@ + cell_at(h.x, h.y, h.z, ", "@) + " ["@ + h.format@ + "]: "@
            + flat_preview(h.content@, 300) + "\n"@
    }
}

/// The answer to a range read of the window from `lo` to `hi` on each axis
/// that found `hits` (each shown with the first 300 characters of its
/// content on one line).
pub open spec fn spec_range_report(lo: (i32, i32, i32), hi: (i32, i32, i32), hits: Seq<RangeHit>) -> Seq<char> {
    if hits.len() == 0 {
        "No cells found in range X["@ + signed_decimal(lo.0 as int) + "-"@ + signed_decimal(hi.0 as int) + "] Y["@
            + signed_decimal(lo.1 as int) + "-"@ + signed_decimal(hi.1 as int) + "] Z["@ + signed_decimal(
            lo.2 as int,
        ) + "-"@ + signed_decimal(hi.2 as int) + "]."@
    } else {
        "--- Turing Range Read ("@ + decimal(hits.len()) + " cells) ---\n"@ + range_lines(hits)
    }
}

/// The answer to a range read.
pub fn range_report(lo: (i32, i32, i32), hi: (i32, i32, i32), hits: &Vec<RangeHit>) -> (r: String)
    ensures
        r@ == spec_range_report(lo, hi, hits@),
{
    if hits.len() == 0 {
        let mut o = chars_of("No cells found in range X[");
        append_chars(&mut o, signed_decimal_chars(lo.0 as i64).as_slice());
        append_str(&mut o, "-");
        append_chars(&mut o, signed_decimal_chars(hi.0 as i64).as_slice());
        append_str(&mut o, "] Y[");
        append_chars(&mut o, signed_decimal_chars(lo.1 as i64).as_slice());
        append_str(&mut o, "-");
        append_chars(&mut o, signed_decimal_chars(hi.1 as i64).as_slice());
        append_str(&mut o, "] Z[");
        append_chars(&mut o, signed_decimal_chars(lo.2 as i64).as_slice());
        append_str(&mut o, "-");
        append_chars(&mut o, signed_decimal_chars(hi.2 as i64).as_slice());
        append_str(&mut o, "].");
        return string_of(o.as_slice());
    }
    let mut o = chars_of("--- Turing Range Read (");
    append_chars(&mut o, decimal_chars(hits.len() as u64).as_slice());
    append_str(&mut o, " cells) ---\n");
    let ghost head = o@;
    let mut k: usize = 0;
    while k < hits.len()
        invariant
            k <= hits@.len(),
            o@ == head + range_lines(hits@.subrange(0, k as int)),
        decreases hits.len() - k,
    {
        assert(hits@.subrange(0, k + 1).drop_last() =~= hits@.subrange(0, k as int));
        let h = &hits[k];
        append_str(&mut o, "* Cell ");
        push_cell(&mut o, h.x, h.y, h.z, ", ");
        append_str(&mut o, " [");
        append_str(&mut o, h.format.as_str());
        append_str(&mut o, "]: ");
        let p = flat_preview_exec(h.content.as_str(), 300);
        append_chars(&mut o, p.as_slice());
        append_str(&mut o, "\n");
        assert(o@ =~= head + range_lines(hits@.subrange(0, k + 1)));
        k = k + 1;
    }
    assert(hits@.subrange(0, hits@.len() as int) =~= hits@);
    string_of(o.as_slice())
}

/// The answer to a write to the cell at `(x, y, z)`.
pub fn written_report(x: i32, y: i32, z: i32) -> (r: String)
    ensures
        r@ == "Successfully wrote payload to cell "@ + cell_at(x, y, z, ", "@) + "."@,
{
    around_cell("Successfully wrote payload to cell ", x, y, z, ", ", ".")
}

/// `before` followed by a store's error message.
pub fn failure_text(before: &str, error: &str) -> (r: String)
    ensures
        r@ == before@ + error@,
{
    let mut o = chars_of(before);
    append_str(&mut o, error);
    string_of(o.as_slice())
}

/// A cell as the grid holds it.
pub struct CellView {
    pub format: String,
    pub status: String,
    pub content: String,
    pub links: Vec<(i32, i32, i32)>,
    pub history_len: usize,
}

pub open spec fn link_list(ls: Seq<(i32, i32, i32)>) -> Seq<char>
    decreases ls.len(),
{
    if ls.len() == 0 {
        Seq::empty()
    } else if ls.len() == 1 {
        cell_at(ls[0].0, ls[0].1, ls[0].2, ","@)
    } else {
        link_list(ls.drop_last()) + ", "@ + cell_at(ls.last().0, ls.last().1, ls.last().2, ","@)
    }
}

/// What a read of the cell at `(x, y, z)` shows: its format, status and
/// content, its links and how many earlier versions it has.
pub open spec fn spec_cell_report(x: i32, y: i32, z: i32, cell: Option<CellView>) -> Seq<char> {
    match cell {
        Some(c) => "Cell "@ + cell_at(x, y, z, ", "@) + " [Format: "@ + c.format@ + ", Status: "@ + c.status@ + "]:\n"@
            + c.content@ + (if c.links@.len() == 0 {
            Seq::empty()
        } else {
            "\nLinks → "@ + link_list(c.links@)
        }) + (if c.history_len == 0 {
            Seq::empty()
        } else {
            "\nHistory: "@ + decimal(c.history_len as nat) + " previous version(s) available"@
        }),
        None => "Cell "@ + cell_at(x, y, z, ", "@) + " is empty."@,
    }
}

/// What a read of the cell under the head shows.
pub fn cell_report(x: i32, y: i32, z: i32, cell: Option<&CellView>) -> (r: String)
    ensures
        r@ == spec_cell_report(
            x,
            y,
            z,
            match cell {
                Some(c) => Some(*c),
                None => None,
            },
        ),
{
    match cell {
        None => around_cell("Cell ", x, y, z, ", ", " is empty."),
        Some(c) => {
            let mut o = chars_of("Cell ");
            push_cell(&mut o, x, y, z, ", ");
            append_str(&mut o, " [Format: ");
            append_str(&mut o, c.format.as_str());
            append_str(&mut o, ", Status: ");
            append_str(&mut o, c.status.as_str());
            append_str(&mut o, "]:\n");
            append_str(&mut o, c.content.as_str());
            if c.links.len() > 0 {
                append_str(&mut o, "\nLinks → ");
                let ghost head = o@;
                let mut k: usize = 0;
                while k < c.links.len()
                    invariant
                        k <= c.links@.len(),
                        o@ == head + link_list(c.links@.subrange(0, k as int)),
                    decreases c.links.len() - k,
                {
                    let ghost next = c.links@.subrange(0, k + 1);
                    assert(next.drop_last() =~= c.links@.subrange(0, k as int));
                    let (lx, ly, lz) = c.links[k];
                    if k > 0 {
                        append_str(&mut o, ", ");
                    } else {
                        assert(next.len() == 1);
                    }
                    push_cell(&mut o, lx, ly, lz, ",");
                    assert(o@ =~= head + link_list(next));
                    k = k + 1;
                }
                assert(c.links@.subrange(0, c.links@.len() as int) =~= c.links@);
            }
            if c.history_len > 0 {
                append_str(&mut o, "\nHistory: ");
                append_chars(&mut o, decimal_chars(c.history_len as u64).as_slice());
                append_str(&mut o, " previous version(s) available");
            }
            string_of(o.as_slice())
        },
    }
}

pub const EMPTY_CELL_EXECUTE_TEXT: &'static str = "Error: Current cell is empty. Cannot execute.";

pub const EMPTY_CELL_DAEMON_TEXT: &'static str = "Error: Current cell is empty. Cannot deploy daemon.";

/// The answer to a run of the cell under the head: its output, or the
/// runner's error as it stands.
pub fn executed_report(outcome: Result<String, String>) -> (r: String)
    ensures
        r@ == match outcome {
            Ok(out) => "Cell Executed Successfully.\nSTDOUT:\n"@ + out@,
            Err(e) => e@,
        },
{
    match outcome {
        Ok(out) => failure_text("Cell Executed Successfully.\nSTDOUT:\n", out.as_str()),
        Err(e) => e,
    }
}

/// The refusal of a daemon for a cell that already runs one.
pub fn daemon_busy(x: i32, y: i32, z: i32) -> (r: ToolError)
    ensures
        r.output@ == "Error: A Daemon is already actively running on cell "@ + cell_at(x, y, z, ","@)
            + ". Write new data to reset it."@,
        r.reason@ == "Lock contention"@,
{
    ToolError {
        output: around_cell("Error: A Daemon is already actively running on cell ", x, y, z, ",", ". Write new data to reset it."),
        reason: owned("Lock contention"),
    }
}

/// The refusal of a daemon whose lock could not be set.
pub fn daemon_lock_failure(error: &str) -> (r: ToolError)
    ensures
        r.output@ == "Error setting lock: "@ + error@,
        r.reason@ == "IO Error"@,
{
    ToolError { output: failure_text("Error setting lock: ", error), reason: owned("IO Error") }
}

/// The answer to a deployed daemon.
pub fn daemon_deployed_report(x: i32, y: i32, z: i32, interval_secs: u64) -> (r: String)
    ensures
        r@ == "Successfully deployed Turing Daemon at "@ + cell_at(x, y, z, ","@) + " running every "@ + decimal(
            interval_secs as nat,
        ) + " seconds in the background."@,
{
    let mut o = chars_of("Successfully deployed Turing Daemon at ");
    push_cell(&mut o, x, y, z, ",");
    append_str(&mut o, " running every ");
    append_chars(&mut o, decimal_chars(interval_secs).as_slice());
    append_str(&mut o, " seconds in the background.");
    string_of(o.as_slice())
}

/// What a daemon posts after one run: its output when there is some, its
/// error when the run failed (which also stops the daemon), nothing for a
/// silent run.
pub fn daemon_event(x: i32, y: i32, z: i32, interval_secs: u64, outcome: Result<String, String>) -> (r: Option<String>)
    ensures
        match outcome {
            Ok(out) => if out@.len() == 0 {
                r is None
            } else {
                r matches Some(m) && m@ == "TURING DAEMON "@ + cell_at(x, y, z, ","@) + " interval ["@ + decimal(
                    interval_secs as nat,
                ) + "]\n"@ + out@
            },
            Err(e) => r matches Some(m) && m@ == "TURING DAEMON "@ + cell_at(x, y, z, ","@) + " FAILED\n"@ + e@,
        },
{
    match outcome {
        Ok(out) => {
            if out.as_str().unicode_len() == 0 {
                return None;
            }
            let mut o = chars_of("TURING DAEMON ");
            push_cell(&mut o, x, y, z, ",");
            append_str(&mut o, " interval [");
            append_chars(&mut o, decimal_chars(interval_secs).as_slice());
            append_str(&mut o, "]\n");
            append_str(&mut o, out.as_str());
            Some(string_of(o.as_slice()))
        },
        Err(e) => {
            let mut o = chars_of("TURING DAEMON ");
            push_cell(&mut o, x, y, z, ",");
            append_str(&mut o, " FAILED\n");
            append_str(&mut o, e.as_str());
            Some(string_of(o.as_slice()))
        },
    }
}

/// The answer to a label set at `(x, y, z)`.
pub fn label_set_report(name: &str, x: i32, y: i32, z: i32) -> (r: String)
    ensures
        r@ == "Label '"@ + name@ + "' set at coordinates "@ + cell_at(x, y, z, ", "@) + "."@,
{
    let mut o = chars_of("Label '");
    append_str(&mut o, name);
    append_str(&mut o, "' set at coordinates ");
    push_cell(&mut o, x, y, z, ", ");
    append_str(&mut o, ".");
    string_of(o.as_slice())
}

/// Names joined with `, `.
pub open spec fn comma_list(ls: Seq<Seq<char>>) -> Seq<char>
    decreases ls.len(),
{
    if ls.len() == 0 {
        Seq::empty()
    } else if ls.len() == 1 {
        ls[0]
    } else {
        comma_list(ls.drop_last()) + ", "@ + ls.last()
    }
}

pub open spec fn strs(v: Seq<String>) -> Seq<Seq<char>> {
    v.map_values(|s: String| s@)
}

/// The answer to a jump to the label `name`: where it led, or the labels
/// that exist.
pub open spec fn spec_goto_report(name: Seq<char>, found: Option<(i32, i32, i32)>, labels: Seq<Seq<char>>) -> Seq<char> {
    match found {
        Some((x, y, z)) => "Jumped to label '"@ + name + "' at "@ + cell_at(x, y, z, ", "@) + "."@,
        None => if labels.len() == 0 {
            "Label '"@ + name + "' not found. No labels have been set yet."@
        } else {
            "Label '"@ + name + "' not found. Available labels: "@ + comma_list(labels)
        },
    }
}

/// The answer to a jump to a label.
pub fn goto_report(name: &str, found: Option<(i32, i32, i32)>, labels: &Vec<String>) -> (r: String)
    ensures
        r@ == spec_goto_report(name@, found, strs(labels@)),
{
    match found {
        Some((x, y, z)) => {
            let mut o = chars_of("Jumped to label '");
            append_str(&mut o, name);
            append_str(&mut o, "' at ");
            push_cell(&mut o, x, y, z, ", ");
            append_str(&mut o, ".");
            string_of(o.as_slice())
        },
        None => {
            let mut o = chars_of("Label '");
            append_str(&mut o, name);
            if labels.len() == 0 {
                append_str(&mut o, "' not found. No labels have been set yet.");
                return string_of(o.as_slice());
            }
            append_str(&mut o, "' not found. Available labels: ");
            let ghost all = strs(labels@);
            let ghost head = o@;
            let mut k: usize = 0;
            while k < labels.len()
                invariant
                    k <= labels@.len(),
                    all == strs(labels@),
                    o@ == head + comma_list(all.subrange(0, k as int)),
                decreases labels.len() - k,
            {
                let ghost next = all.subrange(0, k + 1);
                assert(next.drop_last() =~= all.subrange(0, k as int));
                assert(next.last() == labels@[k as int]@);
                if k > 0 {
                    append_str(&mut o, ", ");
                } else {
                    assert(next.len() == 1);
                }
                append_str(&mut o, labels[k].as_str());
                assert(o@ =~= head + comma_list(next));
                k = k + 1;
            }
            assert(all.subrange(0, all.len() as int) =~= all);
            string_of(o.as_slice())
        },
    }
}

/// The answer to a link from the cell under the head to a target: made,
/// refused for an empty cell, or failed.
pub fn link_report(from: (i32, i32, i32), to: (i32, i32, i32), outcome: Result<bool, String>) -> (r: String)
    ensures
        r@ == match outcome {
            Ok(true) => "Linked cell "@ + cell_at(from.0, from.1, from.2, ","@) + " → "@ + cell_at(
                to.0,
                to.1,
                to.2,
                ","@,
            ) + "."@,
            Ok(false) => "Error: Cell "@ + cell_at(from.0, from.1, from.2, ","@)
                + " is empty. Write data before linking."@,
            Err(e) => "Link failed: "@ + e@,
        },
{
    match outcome {
        Ok(true) => {
            let mut o = chars_of("Linked cell ");
            push_cell(&mut o, from.0, from.1, from.2, ",");
            append_str(&mut o, " → ");
            push_cell(&mut o, to.0, to.1, to.2, ",");
            append_str(&mut o, ".");
            string_of(o.as_slice())
        },
        Ok(false) => around_cell("Error: Cell ", from.0, from.1, from.2, ",", " is empty. Write data before linking."),
        Err(e) => failure_text("Link failed: ", e.as_str()),
    }
}

/// An earlier version of a cell.
pub struct Snapshot {
    pub format: String,
    pub content: String,
    pub timestamp: String,
}

/// The first `n` characters of `s`.
pub open spec fn first_chars(s: Seq<char>, n: nat) -> Seq<char> {
    if s.len() <= n {
        s
    } else {
        s.subrange(0, n as int)
    }
}

pub open spec fn history_lines(hs: Seq<Snapshot>) -> Seq<char>
    decreases hs.len(),
{
    if hs.len() == 0 {
        Seq::empty()
    } else {
        let h = hs.last();
        history_lines(hs.drop_last()) + "  v-"@ + decimal(hs.len()) + ": ["@ + h.format@ + "] "@ + first_chars(
            h.content@,
            100,
        ) + " (at "@ + h.timestamp@ + ")\n"@
    }
}

/// The answer to a history request for the cell at `(x, y, z)`: its earlier
/// versions (each with the first 100 characters of its content), or that it
/// has none, or that the cell is empty.
pub open spec fn spec_history_report(x: i32, y: i32, z: i32, history: Option<Seq<Snapshot>>) -> Seq<char> {
    match history {
        Some(hs) => if hs.len() == 0 {
            "Cell "@ + cell_at(x, y, z, ","@) + " has no version history."@
        } else {
            "--- Version History for Cell "@ + cell_at(x, y, z, ","@) + " ("@ + decimal(hs.len()) + " entries) ---\n"@
                + history_lines(hs)
        },
        None => "Cell "@ + cell_at(x, y, z, ","@) + " is empty — no history."@,
    }
}

/// The answer to a history request.
pub fn history_report(x: i32, y: i32, z: i32, history: Option<&Vec<Snapshot>>) -> (r: String)
    ensures
        r@ == spec_history_report(
            x,
            y,
            z,
            match history {
                Some(h) => Some(h@),
                None => None,
            },
        ),
{
    match history {
        None => around_cell("Cell ", x, y, z, ",", " is empty — no history."),
        Some(hs) => {
            if hs.len() == 0 {
                return around_cell("Cell ", x, y, z, ",", " has no version history.");
            }
            let mut o = chars_of("--- Version History for Cell ");
            push_cell(&mut o, x, y, z, ",");
            append_str(&mut o, " (");
            append_chars(&mut o, decimal_chars(hs.len() as u64).as_slice());
            append_str(&mut o, " entries) ---\n");
            let ghost head = o@;
            let mut k: usize = 0;
            while k < hs.len()
                invariant
                    k <= hs@.len(),
                    o@ == head + history_lines(hs@.subrange(0, k as int)),
                decreases hs.len() - k,
            {
                let ghost next = hs@.subrange(0, k + 1);
                assert(next.drop_last() =~= hs@.subrange(0, k as int));
                let h = &hs[k];
                append_str(&mut o, "  v-");
                append_chars(&mut o, decimal_chars((k + 1) as u64).as_slice());
                append_str(&mut o, ": [");
                append_str(&mut o, h.format.as_str());
                append_str(&mut o, "] ");
                let c = chars_of(h.content.as_str());
                let p = if c.len() <= 100 { c } else { slice_copy(c.as_slice(), 0, 100) };
                append_chars(&mut o, p.as_slice());
                append_str(&mut o, " (at ");
                append_str(&mut o, h.timestamp.as_str());
                append_str(&mut o, ")\n");
                assert(o@ =~= head + history_lines(next));
                k = k + 1;
            }
            assert(hs@.subrange(0, hs@.len() as int) =~= hs@);
            string_of(o.as_slice())
        },
    }
}

/// The answer to an undo of the cell at `(x, y, z)`: the restored content,
/// or that there was nothing to restore, or the store's failure.
pub fn undo_report(x: i32, y: i32, z: i32, outcome: Result<Option<String>, String>) -> (r: String)
    ensures
        r@ == match outcome {
            Ok(Some(c)) => "Undo successful. Cell "@ + cell_at(x, y, z, ","@)
                + " restored to previous version.\nContent: "@ + c@,
            Ok(None) => "Cannot undo: Cell "@ + cell_at(x, y, z, ","@) + " has no version history."@,
            Err(e) => "Undo failed: "@ + e@,
        },
{
    match outcome {
        Ok(Some(c)) => {
            let mut o = chars_of("Undo successful. Cell ");
            push_cell(&mut o, x, y, z, ",");
            append_str(&mut o, " restored to previous version.\nContent: ");
            append_str(&mut o, c.as_str());
            string_of(o.as_slice())
        },
        Ok(None) => around_cell("Cannot undo: Cell ", x, y, z, ",", " has no version history."),
        Err(e) => failure_text("Undo failed: ", e.as_str()),
    }
}

/// The refusal of a pipeline that names an empty cell.
pub fn pipeline_empty_cell(x: i32, y: i32, z: i32) -> (r: ToolError)
    ensures
        r.output@ == "Error: Cell "@ + cell_at(x, y, z, ","@) + " is empty. Pipeline aborted."@,
        r.reason@ == "Empty cell in pipeline"@,
{
    ToolError {
        output: around_cell("Error: Cell ", x, y, z, ",", " is empty. Pipeline aborted."),
        reason: owned("Empty cell in pipeline"),
    }
}

/// The answer to a pipeline run over `cells` cells.
pub fn pipeline_report(cells: usize, outcome: Result<String, String>) -> (r: String)
    ensures
        r@ == match outcome {
            Ok(out) => "Pipeline executed successfully ("@ + decimal(cells as nat) + " cells).\n\n"@ + out@,
            Err(e) => "Pipeline failed.\n\n"@ + e@,
        },
{
    match outcome {
        Ok(out) => {
            let mut o = chars_of("Pipeline executed successfully (");
            append_chars(&mut o, decimal_chars(cells as u64).as_slice());
            append_str(&mut o, " cells).\n\n");
            append_str(&mut o, out.as_str());
            string_of(o.as_slice())
        },
        Err(e) => failure_text("Pipeline failed.\n\n", e.as_str()),
    }
}

} // verus!
