//! The source reader tool: which file a request names, whether it may be
//! read, and the page of it that is shown.  Files are found and read outside
//! this crate.
use vstd::prelude::*;
use crate::containment::{basename_of, file_name_of};
use crate::fmt::{decimal, decimal_chars, decimal_u128};
use crate::process::{join_lines, lines_of, text_lines};
use crate::tags::{extract_bracket_tag_chars, spec_bracket_tag};
use crate::text::{
    append_chars, append_str, chars_of, contains, contains_exec, owned, parse_usize,
    spec_parse_unsigned, starts_with, starts_with_exec, strip, strip_exec, string_of, words,
    words_of, CharClass,
};

verus! {

/// What a read request asks for.
pub struct ReadRequest {
    /// The file, as named.
    pub path: String,
    /// The first line to show, counting from 1.
    pub start_line: usize,
    /// How many lines to show.
    pub limit: usize,
}

/// A word that looks like a path: it holds `src/`, `/` or `.`.
pub open spec fn looks_like_path(w: Seq<char>) -> bool {
    contains(w, "src/"@) || contains(w, "/"@) || contains(w, "."@)
}

/// The first word of `ws` that looks like a path.
pub open spec fn first_pathlike(ws: Seq<Seq<char>>) -> Option<Seq<char>>
    decreases ws.len(),
{
    if ws.len() == 0 {
        None
    } else if looks_like_path(ws[0]) {
        Some(ws[0])
    } else {
        first_pathlike(ws.drop_first())
    }
}

/// The file a request names: its `name:[..]` tag, else the first path-like
/// word with surrounding brackets, quotes and commas removed, else its last
/// word.
pub open spec fn spec_read_target(desc: Seq<char>) -> Seq<char> {
    match spec_bracket_tag(desc, "name:"@) {
        Some(n) => n,
        None => match first_pathlike(words(desc)) {
            Some(w) => strip(w, CharClass::Quote),
            None => if words(desc).len() > 0 {
                words(desc).last()
            } else {
                Seq::empty()
            },
        },
    }
}

/// A number given as `tag[n]`, `d` when absent or not a `usize`.
pub open spec fn spec_bracket_number(desc: Seq<char>, tag: Seq<char>, d: nat) -> nat {
    match spec_bracket_tag(desc, tag) {
        Some(v) => match spec_parse_unsigned(v, usize::MAX as nat) {
            Some(n) => n,
            None => d,
        },
        None => d,
    }
}

fn bracket_number(d: &[char], tag: &str, dflt: usize) -> (r: usize)
    ensures
        r as nat == spec_bracket_number(d@, tag@, dflt as nat),
{
    let g = chars_of(tag);
    match extract_bracket_tag_chars(d, g.as_slice()) {
        Some(v) => match parse_usize(v.as_slice()) {
            Some(n) => n,
            None => dflt,
        },
        None => dflt,
    }
}

fn first_pathlike_exec(d: &[char]) -> (r: Option<Vec<char>>)
    ensures
        match first_pathlike(words(d@)) {
            Some(w) => r matches Some(x) && x@ == w,
            None => r is None,
        },
{
    let ws = words_of(d);
    let ghost w = words(d@);
    assert(w.subrange(0, w.len() as int) =~= w);
    let a = chars_of("src/");
    let b = chars_of("/");
    let c = chars_of(".");
    let mut i: usize = 0;
    while i < ws.len()
        invariant
            i <= ws@.len(),
            ws@.len() == w.len(),
            w == words(d@),
            a@ == "src/"@,
            b@ == "/"@,
            c@ == "."@,
            forall|k: int| 0 <= k < ws@.len() ==> #[trigger] ws@[k]@ == w[k],
            first_pathlike(w) == first_pathlike(w.subrange(i as int, w.len() as int)),
        decreases ws.len() - i,
    {
        let ghost rest = w.subrange(i as int, w.len() as int);
        assert(rest.drop_first() =~= w.subrange(i + 1, w.len() as int));
        assert(rest[0] == ws@[i as int]@);
        let x = ws[i].as_slice();
        if contains_exec(x, a.as_slice()) || contains_exec(x, b.as_slice()) || contains_exec(x, c.as_slice()) {
            let r = crate::text::slice_copy(x, 0, x.len());
            assert(r@ =~= rest[0]);
            return Some(r);
        }
        i = i + 1;
    }
    assert(w.subrange(i as int, w.len() as int).len() == 0);
    None
}

/// What a read request `desc` asks for: the file, the first line (1 by
/// default) and the number of lines (500 by default), numbers given as
/// `start_line:[n]` and `limit:[n]`.
pub fn parse_read_request(desc: &str) -> (r: ReadRequest)
    ensures
        r.path@ == spec_read_target(desc@),
        r.start_line as nat == spec_bracket_number(desc@, "start_line:"@, 1),
        r.limit as nat == spec_bracket_number(desc@, "limit:"@, 500),
{
    let dv = chars_of(desc);
    let d = dv.as_slice();
    let g = chars_of("name:");
    let path: Vec<char> = match extract_bracket_tag_chars(d, g.as_slice()) {
        Some(n) => n,
        None => match first_pathlike_exec(d) {
            Some(w) => strip_exec(w.as_slice(), CharClass::Quote),
            None => {
                let ws = words_of(d);
                if ws.len() > 0 {
                    let last = &ws[ws.len() - 1];
                    crate::text::slice_copy(last.as_slice(), 0, last.len())
                } else {
                    Vec::new()
                }
            },
        },
    };
    ReadRequest {
        path: string_of(path.as_slice()),
        start_line: bracket_number(d, "start_line:", 1),
        limit: bracket_number(d, "limit:", 500),
    }
}

/// A path is refused when it holds `..` or is absolute.
pub open spec fn spec_path_denied(path: Seq<char>) -> bool {
    contains(path, ".."@) || starts_with(path, "/"@)
}

pub const ACCESS_DENIED_TEXT: &'static str = "Access Denied: Path traverses outside isolated project root.";

/// Whether a path is refused for leaving the project root.
pub fn path_denied(path: &str) -> (r: bool)
    ensures
        r == spec_path_denied(path@),
{
    let p = chars_of(path);
    let dd = chars_of("..");
    let sl = chars_of("/");
    contains_exec(p.as_slice(), dd.as_slice()) || starts_with_exec(p.as_slice(), sl.as_slice())
}

/// The index of the first line shown: `start_line - 1`, at most `total`.
pub open spec fn page_start(start_line: nat, total: nat) -> nat {
    let s = if start_line > 0 { (start_line - 1) as nat } else { 0 };
    if s < total { s } else { total }
}

/// The index after the last line shown.
pub open spec fn page_end(start_line: nat, limit: nat, total: nat) -> nat {
    let e = page_start(start_line, total) + limit;
    if e < total { e } else { total }
}

/// The share of a file read once `e` of its `total` lines are shown, in whole
/// percent rounded down (all of an empty file).
pub open spec fn read_percent(e: nat, total: nat) -> nat {
    if total > 0 {
        (e * 100 / total) as nat
    } else {
        100
    }
}

/// The header of a page: the file, the line range, the share read, and either
/// a bookmark to continue or the end mark.
pub open spec fn page_header(resolved: Seq<char>, target: Seq<char>, s: nat, e: nat, total: nat, limit: nat) -> Seq<char> {
    let remaining = (total - e) as nat;
    "File: "@ + resolved + "\nLines: "@ + decimal(s + 1) + "-"@ + decimal(e) + "/"@ + decimal(total)
        + " ("@ + decimal(read_percent(e, total)) + "% complete"@ + (if total > e {
        ", "@ + decimal(remaining) + " lines remaining)\n[BOOKMARK: Continue with codebase_read(name:["@
            + target + "] start_line:["@ + decimal(e + 1) + "] limit:["@ + decimal(limit)
            + "])]\n[READING INCOMPLETE — you MUST continue reading before responding]"@
    } else {
        ")\n[DOCUMENT COMPLETE]"@
    })
}

/// The page of a file shown for a read: its header, a blank line, then the
/// lines shown.
pub open spec fn spec_page(content: Seq<char>, resolved: Seq<char>, target: Seq<char>, start_line: nat, limit: nat) -> Seq<char> {
    let ls = text_lines(content);
    let total = ls.len();
    let s = page_start(start_line, total);
    let e = page_end(start_line, limit, total);
    page_header(resolved, target, s, e, total, limit) + "\n\n"@ + join_lines(ls.subrange(s as int, e as int))
}

fn percent_exec(e: usize, total: usize) -> (r: u64)
    requires
        e <= total,
    ensures
        r as nat == read_percent(e as nat, total as nat),
{
    if total > 0 {
        let p: u128 = ((e as u128) * 100) / (total as u128);
        assert(p <= 100) by (nonlinear_arith)
            requires p == (e as int) * 100 / (total as int), e <= total, total > 0;
        p as u64
    } else {
        100
    }
}

fn header_exec(resolved: &str, target: &str, s: usize, e: usize, total: usize, limit: usize) -> (r: Vec<char>)
    requires
        s <= e <= total,
    ensures
        r@ == page_header(resolved@, target@, s as nat, e as nat, total as nat, limit as nat),
{
    let mut o: Vec<char> = Vec::new();
    append_str(&mut o, "File: ");
    append_str(&mut o, resolved);
    append_str(&mut o, "\nLines: ");
    append_chars(&mut o, decimal_u128((s as u128) + 1).as_slice());
    append_str(&mut o, "-");
    append_chars(&mut o, decimal_chars(e as u64).as_slice());
    append_str(&mut o, "/");
    append_chars(&mut o, decimal_chars(total as u64).as_slice());
    append_str(&mut o, " (");
    append_chars(&mut o, decimal_chars(percent_exec(e, total)).as_slice());
    append_str(&mut o, "% complete");
    if total > e {
        append_str(&mut o, ", ");
        append_chars(&mut o, decimal_chars((total - e) as u64).as_slice());
        append_str(&mut o, " lines remaining)\n[BOOKMARK: Continue with codebase_read(name:[");
        append_str(&mut o, target);
        append_str(&mut o, "] start_line:[");
        append_chars(&mut o, decimal_u128((e as u128) + 1).as_slice());
        append_str(&mut o, "] limit:[");
        append_chars(&mut o, decimal_chars(limit as u64).as_slice());
        append_str(&mut o, "])]\n[READING INCOMPLETE — you MUST continue reading before responding]");
    } else {
        append_str(&mut o, ")\n[DOCUMENT COMPLETE]");
    }
    o
}

/// The page of `content` (read from `resolved`, asked for as `target`) from
/// line `start_line`, `limit` lines long.  The end of the page is computed in
/// `usize`, so it must fit.
pub fn read_page(content: &str, resolved: &str, target: &str, start_line: usize, limit: usize) -> (r: String)
    requires
        page_start(start_line as nat, text_lines(content@).len()) + limit <= usize::MAX,
    ensures
        r@ == spec_page(content@, resolved@, target@, start_line as nat, limit as nat),
{
    let c = chars_of(content);
    let ls = lines_of(c.as_slice());
    let ghost all = text_lines(content@);
    let total = ls.len();
    let s0: usize = if start_line > 0 { start_line - 1 } else { 0 };
    let s: usize = if s0 < total { s0 } else { total };
    let e0: usize = s + limit;
    let e: usize = if e0 < total { e0 } else { total };
    let mut o = header_exec(resolved, target, s, e, total, limit);
    append_str(&mut o, "\n\n");
    let ghost head = o@;
    let ghost sel = all.subrange(s as int, e as int);
    let mut i: usize = s;
    while i < e
        invariant
            s <= i <= e,
            e <= total,
            total == ls@.len(),
            total == all.len(),
            all == text_lines(content@),
            sel == all.subrange(s as int, e as int),
            forall|k: int| 0 <= k < ls@.len() ==> #[trigger] ls@[k]@ == all[k],
            o@ == head + join_lines(sel.subrange(0, i - s)),
        decreases e - i,
    {
        let ghost pre = sel.subrange(0, i - s);
        let ghost next = sel.subrange(0, i - s + 1);
        assert(next.drop_last() =~= pre);
        assert(next.last() == ls@[i as int]@);
        if i > s {
            o.push('\n');
        } else {
            assert(next.len() == 1);
        }
        append_chars(&mut o, ls[i].as_slice());
        assert(o@ =~= head + join_lines(next));
        i = i + 1;
    }
    assert(sel.subrange(0, e - s) =~= sel);
    string_of(o.as_slice())
}

/// The name searched for under `src/` when `path` cannot be read: its final
/// component, or the whole path when it has none.
pub fn search_file_name(path: &str) -> (r: String)
    ensures
        r@ == basename_of(path@),
{
    match file_name_of(path) {
        Some(n) => n,
        None => owned(path),
    }
}

/// Why a file could not be read, after the search under `src/`.
pub enum ReadMiss {
    /// The search found the file at `found`, which could not be read either.
    FoundUnreadable { found: String },
    /// The search for `file_name` found nothing.
    NotFound { file_name: String },
    /// The search could not be run.
    SearchFailed,
}

/// The answer to a read of `target` that failed, and the reason.
pub open spec fn spec_read_miss(target: Seq<char>, m: ReadMiss) -> (Seq<char>, Seq<char>) {
    match m {
        ReadMiss::FoundUnreadable { found } => (
            "Failed to read file: "@ + target + " (found at "@ + found@ + " but read failed)"@,
            "Read failed"@,
        ),
        ReadMiss::NotFound { file_name } => (
            "Failed to read file: "@ + target + " (not found, also searched src/ for '"@ + file_name@
                + "')"@,
            "Not found"@,
        ),
        ReadMiss::SearchFailed => ("Failed to read file: "@ + target, "Not found"@),
    }
}

/// The answer to a read of `target` that failed, and the reason.
pub fn read_miss(target: &str, m: &ReadMiss) -> (r: (String, String))
    ensures
        r.0@ == spec_read_miss(target@, *m).0,
        r.1@ == spec_read_miss(target@, *m).1,
{
    let mut o: Vec<char> = Vec::new();
    append_str(&mut o, "Failed to read file: ");
    append_str(&mut o, target);
    match m {
        ReadMiss::FoundUnreadable { found } => {
            append_str(&mut o, " (found at ");
            append_str(&mut o, found.as_str());
            append_str(&mut o, " but read failed)");
            (string_of(o.as_slice()), owned("Read failed"))
        },
        ReadMiss::NotFound { file_name } => {
            append_str(&mut o, " (not found, also searched src/ for '");
            append_str(&mut o, file_name.as_str());
            append_str(&mut o, "')");
            (string_of(o.as_slice()), owned("Not found"))
        },
        ReadMiss::SearchFailed => (string_of(o.as_slice()), owned("Not found")),
    }
}

} // verus!
