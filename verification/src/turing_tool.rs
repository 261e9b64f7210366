//! The Turing grid tool: reading the planner's description into a grid
//! command.  The grid itself lives in the agent's memory store; this module
//! decides what is asked of it.
use vstd::prelude::*;
use crate::containment::{lowercase, to_lowercase};
use crate::models::{tool_error, ToolError};
use crate::params::{
    after_marker, spec_after_marker, spec_tag_i32, spec_tag_u64, spec_tag_word, tag_chars,
    tag_i32, tag_u64, tag_word,
};
use crate::tags::spec_extract_tag;
use crate::text::{
    append_chars, append_str, chars_of, find, find_char, first_word, first_word_of, parse_i32,
    slice_copy, spec_parse_signed, split_char, split_char_exec, str_eq, string_of, strip,
    strip_end, strip_end_exec, strip_start, strip_start_exec, tail, trim, trim_exec, CharClass,
};

verus! {

/// A command for the Turing grid.
pub enum TuringCommand {
    /// Move the read/write head by the given offsets.
    Move { dx: i32, dy: i32, dz: i32 },
    /// List the non-empty cells within `radius` of the head.
    Scan { radius: i32 },
    /// Read the cells in the given bounds (each `(min, max)`).
    ReadRange { x: (i32, i32), y: (i32, i32), z: (i32, i32) },
    /// Write `content` in `format` to the current cell.
    Write { format: String, content: String },
    /// Read the current cell.
    Read,
    /// Run the current cell.
    Execute,
    /// Run the current cell in the background every `interval_secs` seconds.
    DeployDaemon { interval_secs: u64 },
    /// Show the grid's table of contents.
    Index,
    /// Bookmark the head position under `name`.
    Label { name: String },
    /// Jump to the bookmark `name`.
    Goto { name: String },
    /// Link the current cell to the given cell.
    Link { x: i32, y: i32, z: i32 },
    /// Show the current cell's version history.
    History,
    /// Restore the current cell's previous version.
    Undo,
    /// Run the given cells in sequence, piping output along.
    Pipeline { cells: Vec<(i32, i32, i32)> },
}

/// The abstract value of a [`TuringCommand`].
pub enum TuringSpec {
    Move(int, int, int),
    Scan(int),
    ReadRange((int, int), (int, int), (int, int)),
    Write(Seq<char>, Seq<char>),
    Read,
    Execute,
    DeployDaemon(nat),
    Index,
    Label(Seq<char>),
    Goto(Seq<char>),
    Link(int, int, int),
    History,
    Undo,
    Pipeline(Seq<(int, int, int)>),
}

pub open spec fn coords_view(v: Seq<(i32, i32, i32)>) -> Seq<(int, int, int)> {
    v.map_values(|c: (i32, i32, i32)| (c.0 as int, c.1 as int, c.2 as int))
}

impl View for TuringCommand {
    type V = TuringSpec;

    open spec fn view(&self) -> TuringSpec {
        match self {
            TuringCommand::Move { dx, dy, dz } => TuringSpec::Move(*dx as int, *dy as int, *dz as int),
            TuringCommand::Scan { radius } => TuringSpec::Scan(*radius as int),
            TuringCommand::ReadRange { x, y, z } => TuringSpec::ReadRange(
                (x.0 as int, x.1 as int),
                (y.0 as int, y.1 as int),
                (z.0 as int, z.1 as int),
            ),
            TuringCommand::Write { format, content } => TuringSpec::Write(format@, content@),
            TuringCommand::Read => TuringSpec::Read,
            TuringCommand::Execute => TuringSpec::Execute,
            TuringCommand::DeployDaemon { interval_secs } => TuringSpec::DeployDaemon(
                *interval_secs as nat,
            ),
            TuringCommand::Index => TuringSpec::Index,
            TuringCommand::Label { name } => TuringSpec::Label(name@),
            TuringCommand::Goto { name } => TuringSpec::Goto(name@),
            TuringCommand::Link { x, y, z } => TuringSpec::Link(*x as int, *y as int, *z as int),
            TuringCommand::History => TuringSpec::History,
            TuringCommand::Undo => TuringSpec::Undo,
            TuringCommand::Pipeline { cells } => TuringSpec::Pipeline(coords_view(cells@)),
        }
    }
}

// ───────────────────────── bounds and coordinates ─────────────────────────

/// `s` parsed as an `i32` after trimming.
pub open spec fn trimmed_i32(s: Seq<char>) -> Option<int> {
    spec_parse_signed(trim(s), i32::MIN as int, i32::MAX as int)
}

/// A bounds value such as `[0,10]`: trimmed, leading `[` and trailing `]`
/// removed, then the first two comma-separated parts read as `i32`s.
pub open spec fn spec_bounds(raw: Seq<char>) -> Option<(int, int)> {
    let s = strip_end(strip_start(trim(raw), CharClass::Open), CharClass::Close);
    let parts = split_char(s, ',');
    if parts.len() >= 2 {
        match (trimmed_i32(parts[0]), trimmed_i32(parts[1])) {
            (Some(a), Some(b)) => Some((a, b)),
            _ => None,
        }
    } else {
        None
    }
}

fn trimmed_i32_exec(s: &[char]) -> (r: Option<i32>)
    ensures
        match trimmed_i32(s@) {
            Some(v) => r == Some(v as i32),
            None => r is None,
        },
{
    let t = trim_exec(s);
    parse_i32(t.as_slice())
}

/// Read a bounds value such as `[0,10]`.
pub fn parse_bounds(raw: &[char]) -> (r: Option<(i32, i32)>)
    ensures
        match spec_bounds(raw@) {
            Some((a, b)) => r == Some((a as i32, b as i32)),
            None => r is None,
        },
{
    let t = trim_exec(raw);
    let a = strip_start_exec(t.as_slice(), CharClass::Open);
    let s = strip_end_exec(a.as_slice(), CharClass::Close);
    let parts = split_char_exec(s.as_slice(), ',');
    if parts.len() >= 2 {
        match (trimmed_i32_exec(parts[0].as_slice()), trimmed_i32_exec(parts[1].as_slice())) {
            (Some(x), Some(y)) => Some((x, y)),
            _ => None,
        }
    } else {
        None
    }
}

/// The bounds of the tag `tag`, `(0, 0)` when absent or unreadable.
pub open spec fn spec_tag_bounds(desc: Seq<char>, tag: Seq<char>) -> (int, int) {
    let raw = match spec_extract_tag(desc, tag) {
        Some(v) => v,
        None => Seq::empty(),
    };
    match spec_bounds(raw) {
        Some(b) => b,
        None => (0, 0),
    }
}

fn tag_bounds(desc: &[char], tag: &str) -> (r: (i32, i32))
    ensures
        (r.0 as int, r.1 as int) == spec_tag_bounds(desc@, tag@),
{
    let raw = match tag_chars(desc, tag) {
        Some(v) => v,
        None => Vec::new(),
    };
    match parse_bounds(raw.as_slice()) {
        Some(b) => b,
        None => (0, 0),
    }
}

/// A coordinate triple written `x,y,z`: exactly three comma-separated parts,
/// each an `i32` after trimming.
pub open spec fn spec_triple(inner: Seq<char>) -> Option<(int, int, int)> {
    let parts = split_char(inner, ',');
    if parts.len() == 3 {
        match (trimmed_i32(parts[0]), trimmed_i32(parts[1]), trimmed_i32(parts[2])) {
            (Some(x), Some(y), Some(z)) => Some((x, y, z)),
            _ => None,
        }
    } else {
        None
    }
}

/// The coordinate triples written `(x,y,z)` in `s`, in order; a parenthesised
/// group that is not a triple is skipped, and scanning stops at a `(` with no
/// closing `)`.
pub open spec fn spec_coords(s: Seq<char>) -> Seq<(int, int, int)>
    decreases s.len(),
{
    match find(s, seq!['(']) {
        Some(open) => match find(tail(s, open), seq![')']) {
            Some(close) => if 0 <= open && 1 <= close && open + close < s.len() {
                let inner = s.subrange(open + 1, open + close);
                let rest = tail(s, open + close + 1);
                match spec_triple(inner) {
                    Some(t) => seq![t] + spec_coords(rest),
                    None => spec_coords(rest),
                }
            } else {
                Seq::empty()
            },
            None => Seq::empty(),
        },
        None => Seq::empty(),
    }
}

fn triple_exec(inner: &[char]) -> (r: Option<(i32, i32, i32)>)
    ensures
        match spec_triple(inner@) {
            Some((x, y, z)) => r == Some((x as i32, y as i32, z as i32)),
            None => r is None,
        },
{
    let parts = split_char_exec(inner, ',');
    if parts.len() == 3 {
        match (
            trimmed_i32_exec(parts[0].as_slice()),
            trimmed_i32_exec(parts[1].as_slice()),
            trimmed_i32_exec(parts[2].as_slice()),
        ) {
            (Some(x), Some(y), Some(z)) => Some((x, y, z)),
            _ => None,
        }
    } else {
        None
    }
}

/// The coordinate triples `(x,y,z)` written in `s`.
pub fn parse_coords(s: &[char]) -> (r: Vec<(i32, i32, i32)>)
    ensures
        coords_view(r@) == spec_coords(s@),
{
    let mut out: Vec<(i32, i32, i32)> = Vec::new();
    let mut rest = slice_copy(s, 0, s.len());
    assert(rest@ =~= s@);
    loop
        invariant
            spec_coords(s@) == coords_view(out@) + spec_coords(rest@),
        decreases rest@.len(),
    {
        let ghost r0 = rest@;
        let open = match find_char(rest.as_slice(), '(') {
            Some(o) => o,
            None => {
                assert(coords_view(out@) + spec_coords(r0) =~= coords_view(out@));
                return out;
            },
        };
        let after = slice_copy(rest.as_slice(), open, rest.len());
        assert(after@ =~= tail(r0, open as int));
        let close = match find_char(after.as_slice(), ')') {
            Some(c) => c,
            None => {
                assert(coords_view(out@) + spec_coords(r0) =~= coords_view(out@));
                return out;
            },
        };
        assert(close >= 1) by {
            crate::text::lemma_find_spec(r0, seq!['(']);
            assert(r0.subrange(open as int, open + 1)[0] == '(');
            assert(after@[0] == '(');
            crate::text::lemma_find_spec(after@, seq![')']);
            assert(!crate::text::occurs_at(after@, seq![')'], 0)) by {
                assert(after@.subrange(0, 1)[0] == '(');
            }
        }
        let inner = slice_copy(rest.as_slice(), open + 1, open + close);
        let next = slice_copy(rest.as_slice(), open + close + 1, rest.len());
        assert(next@ =~= tail(r0, open + close + 1));
        let ghost before = out@;
        match triple_exec(inner.as_slice()) {
            Some(t) => {
                out.push(t);
                assert(coords_view(out@) =~= coords_view(before) + seq![
                    (t.0 as int, t.1 as int, t.2 as int),
                ]);
            },
            None => {},
        }
        rest = next;
    }
}

// ───────────────────────── commands ─────────────────────────

/// The command a description asks for, given its lower-cased action word.
pub open spec fn spec_turing(desc: Seq<char>, action: Seq<char>) -> Result<
    TuringSpec,
    (Seq<char>, Seq<char>),
> {
    if action == "move"@ {
        Ok(
            TuringSpec::Move(
                spec_tag_i32(desc, "dx:"@, "0"@, 0),
                spec_tag_i32(desc, "dy:"@, "0"@, 0),
                spec_tag_i32(desc, "dz:"@, "0"@, 0),
            ),
        )
    } else if action == "scan"@ {
        Ok(TuringSpec::Scan(spec_tag_i32(desc, "radius:"@, "5"@, 5)))
    } else if action == "read_range"@ {
        Ok(
            TuringSpec::ReadRange(
                spec_tag_bounds(desc, "x_bounds:"@),
                spec_tag_bounds(desc, "y_bounds:"@),
                spec_tag_bounds(desc, "z_bounds:"@),
            ),
        )
    } else if action == "write"@ {
        match spec_after_marker(desc, "content:"@) {
            Some(content) => Ok(TuringSpec::Write(spec_tag_word(desc, "format:"@, "text"@), content)),
            None => Err(("Error: No content provided for write."@, "Missing field"@)),
        }
    } else if action == "read"@ {
        Ok(TuringSpec::Read)
    } else if action == "execute"@ {
        Ok(TuringSpec::Execute)
    } else if action == "deploy_daemon"@ {
        let i = spec_tag_u64(desc, "interval:"@, "60"@, 60);
        Ok(TuringSpec::DeployDaemon(if i < 10 { 10 } else { i }))
    } else if action == "index"@ {
        Ok(TuringSpec::Index)
    } else if action == "label"@ || action == "goto"@ {
        match spec_extract_tag(desc, "name:"@) {
            Some(n) => {
                let name = match first_word(n) {
                    Some(w) => w,
                    None => Seq::empty(),
                };
                if action == "goto"@ {
                    Ok(TuringSpec::Goto(name))
                } else if name.len() == 0 {
                    Err(("Error: Label name cannot be empty."@, "Empty name"@))
                } else {
                    Ok(TuringSpec::Label(name))
                }
            },
            None => Err(("Error: No label name provided. Use 'name:[label_name]'."@, "Missing field"@)),
        }
    } else if action == "link"@ {
        Ok(
            TuringSpec::Link(
                spec_tag_i32(desc, "target_x:"@, "0"@, 0),
                spec_tag_i32(desc, "target_y:"@, "0"@, 0),
                spec_tag_i32(desc, "target_z:"@, "0"@, 0),
            ),
        )
    } else if action == "history"@ {
        Ok(TuringSpec::History)
    } else if action == "undo"@ {
        Ok(TuringSpec::Undo)
    } else if action == "pipeline"@ {
        match spec_extract_tag(desc, "cells:"@) {
            Some(c) => {
                let coords = spec_coords(c);
                if coords.len() == 0 {
                    Err(
                        (
                            "Error: Could not parse cell coordinates. Use format: cells:[(0,0,0),(1,0,0)]"@,
                            "Parse error"@,
                        ),
                    )
                } else {
                    Ok(TuringSpec::Pipeline(coords))
                }
            },
            None => Err(("Error: No cells specified. Use 'cells:[(x,y,z),(x,y,z),...]'."@, "Missing field"@)),
        }
    } else {
        Err(("Unknown action: "@ + action, "Invalid command"@))
    }
}

/// The action words that `spec_turing` tests before `link` differ from it and
/// from `move`.
proof fn lemma_action_words_differ()
    ensures
        "link"@ != "move"@,
        "link"@ != "scan"@,
        "link"@ != "read_range"@,
        "link"@ != "write"@,
        "link"@ != "read"@,
        "link"@ != "execute"@,
        "link"@ != "deploy_daemon"@,
        "link"@ != "index"@,
        "link"@ != "label"@,
        "link"@ != "goto"@,
{
    reveal_strlit("link");
    reveal_strlit("move");
    reveal_strlit("scan");
    reveal_strlit("read_range");
    reveal_strlit("write");
    reveal_strlit("read");
    reveal_strlit("execute");
    reveal_strlit("deploy_daemon");
    reveal_strlit("index");
    reveal_strlit("label");
    reveal_strlit("goto");
    assert("link"@[0] != "move"@[0]);
    assert("link"@[0] != "scan"@[0]);
    assert("link"@[0] != "read_range"@[0]);
    assert("link"@[0] != "write"@[0]);
    assert("link"@[0] != "read"@[0]);
    assert("link"@[0] != "execute"@[0]);
    assert("link"@[0] != "deploy_daemon"@[0]);
    assert("link"@[0] != "index"@[0]);
    assert("link"@[1] != "label"@[1]);
    assert("link"@[0] != "goto"@[0]);
}

/// A link's target is read tag by tag: the action `link` always gives a link
/// command, and its x, y and z each depend on the `target_x:`, `target_y:` and
/// `target_z:` tag respectively and on nothing else, so two descriptions that
/// agree on one of those tags agree on that coordinate.
pub proof fn law_link_reads_each_target_tag(d1: Seq<char>, d2: Seq<char>)
    ensures
        spec_turing(d1, "link"@) is Ok,
        spec_turing(d1, "link"@)->Ok_0 is Link,
        spec_extract_tag(d1, "target_x:"@) == spec_extract_tag(d2, "target_x:"@) ==> spec_turing(
            d1,
            "link"@,
        )->Ok_0->Link_0 == spec_turing(d2, "link"@)->Ok_0->Link_0,
        spec_extract_tag(d1, "target_y:"@) == spec_extract_tag(d2, "target_y:"@) ==> spec_turing(
            d1,
            "link"@,
        )->Ok_0->Link_1 == spec_turing(d2, "link"@)->Ok_0->Link_1,
        spec_extract_tag(d1, "target_z:"@) == spec_extract_tag(d2, "target_z:"@) ==> spec_turing(
            d1,
            "link"@,
        )->Ok_0->Link_2 == spec_turing(d2, "link"@)->Ok_0->Link_2,
{
    lemma_action_words_differ();
}

/// A move's offsets are read tag by tag: the action `move` always gives a move
/// command, and its dx, dy and dz each depend on the `dx:`, `dy:` and `dz:` tag
/// respectively and on nothing else.
pub proof fn law_move_reads_each_offset_tag(d1: Seq<char>, d2: Seq<char>)
    ensures
        spec_turing(d1, "move"@) is Ok,
        spec_turing(d1, "move"@)->Ok_0 is Move,
        spec_extract_tag(d1, "dx:"@) == spec_extract_tag(d2, "dx:"@) ==> spec_turing(
            d1,
            "move"@,
        )->Ok_0->Move_0 == spec_turing(d2, "move"@)->Ok_0->Move_0,
        spec_extract_tag(d1, "dy:"@) == spec_extract_tag(d2, "dy:"@) ==> spec_turing(
            d1,
            "move"@,
        )->Ok_0->Move_1 == spec_turing(d2, "move"@)->Ok_0->Move_1,
        spec_extract_tag(d1, "dz:"@) == spec_extract_tag(d2, "dz:"@) ==> spec_turing(
            d1,
            "move"@,
        )->Ok_0->Move_2 == spec_turing(d2, "move"@)->Ok_0->Move_2,
{
}

/// The lower-cased action word of a description (default `read`).
pub open spec fn spec_turing_action(desc: Seq<char>) -> Seq<char> {
    lowercase(spec_tag_word(desc, "action:"@, "read"@))
}

/// Relates a parse result to its specified value.
pub open spec fn turing_result_is(r: Result<TuringCommand, ToolError>, s: Result<TuringSpec, (Seq<char>, Seq<char>)>) -> bool {
    match s {
        Ok(c) => r matches Ok(x) && x@ == c,
        Err((o, m)) => r matches Err(e) && e.output@ == o && e.reason@ == m,
    }
}

/// The grid command that `desc` asks for, given its lower-cased action word
/// `action`.
pub fn turing_command_for(desc: &str, action: &str) -> (r: Result<TuringCommand, ToolError>)
    ensures
        turing_result_is(r, spec_turing(desc@, action@)),
{
    let d = chars_of(desc);
    let d = d.as_slice();
    if str_eq(action, "move") {
        Ok(
            TuringCommand::Move {
                dx: tag_i32(d, "dx:", "0", 0),
                dy: tag_i32(d, "dy:", "0", 0),
                dz: tag_i32(d, "dz:", "0", 0),
            },
        )
    } else if str_eq(action, "scan") {
        Ok(TuringCommand::Scan { radius: tag_i32(d, "radius:", "5", 5) })
    } else if str_eq(action, "read_range") {
        Ok(
            TuringCommand::ReadRange {
                x: tag_bounds(d, "x_bounds:"),
                y: tag_bounds(d, "y_bounds:"),
                z: tag_bounds(d, "z_bounds:"),
            },
        )
    } else if str_eq(action, "write") {
        match after_marker(d, "content:") {
            Some(content) => {
                let format = tag_word(d, "format:", "text");
                Ok(
                    TuringCommand::Write {
                        format: string_of(format.as_slice()),
                        content: string_of(content.as_slice()),
                    },
                )
            },
            None => Err(tool_error("Error: No content provided for write.", "Missing field")),
        }
    } else if str_eq(action, "read") {
        Ok(TuringCommand::Read)
    } else if str_eq(action, "execute") {
        Ok(TuringCommand::Execute)
    } else if str_eq(action, "deploy_daemon") {
        let i = tag_u64(d, "interval:", "60", 60);
        Ok(TuringCommand::DeployDaemon { interval_secs: if i < 10 { 10 } else { i } })
    } else if str_eq(action, "index") {
        Ok(TuringCommand::Index)
    } else if str_eq(action, "label") || str_eq(action, "goto") {
        match tag_chars(d, "name:") {
            Some(n) => {
                let name = match first_word_of(n.as_slice()) {
                    Some(w) => w,
                    None => Vec::new(),
                };
                if str_eq(action, "goto") {
                    Ok(TuringCommand::Goto { name: string_of(name.as_slice()) })
                } else if name.len() == 0 {
                    Err(tool_error("Error: Label name cannot be empty.", "Empty name"))
                } else {
                    Ok(TuringCommand::Label { name: string_of(name.as_slice()) })
                }
            },
            None => Err(
                tool_error(
                    "Error: No label name provided. Use 'name:[label_name]'.",
                    "Missing field",
                ),
            ),
        }
    } else if str_eq(action, "link") {
        Ok(
            TuringCommand::Link {
                x: tag_i32(d, "target_x:", "0", 0),
                y: tag_i32(d, "target_y:", "0", 0),
                z: tag_i32(d, "target_z:", "0", 0),
            },
        )
    } else if str_eq(action, "history") {
        Ok(TuringCommand::History)
    } else if str_eq(action, "undo") {
        Ok(TuringCommand::Undo)
    } else if str_eq(action, "pipeline") {
        match tag_chars(d, "cells:") {
            Some(c) => {
                let coords = parse_coords(c.as_slice());
                if coords.len() == 0 {
                    Err(
                        tool_error(
                            "Error: Could not parse cell coordinates. Use format: cells:[(0,0,0),(1,0,0)]",
                            "Parse error",
                        ),
                    )
                } else {
                    Ok(TuringCommand::Pipeline { cells: coords })
                }
            },
            None => Err(
                tool_error(
                    "Error: No cells specified. Use 'cells:[(x,y,z),(x,y,z),...]'.",
                    "Missing field",
                ),
            ),
        }
    } else {
        let mut out: Vec<char> = Vec::new();
        append_str(&mut out, "Unknown action: ");
        append_str(&mut out, action);
        Err(ToolError { output: string_of(out.as_slice()), reason: crate::text::owned("Invalid command") })
    }
}

/// The grid command that `desc` asks for: the action is the first word of its
/// `action:` tag (default `read`), lower-cased.
pub fn parse_turing_command(desc: &str) -> (r: Result<TuringCommand, ToolError>)
    ensures
        turing_result_is(r, spec_turing(desc@, spec_turing_action(desc@))),
{
    let d = chars_of(desc);
    let word = tag_word(d.as_slice(), "action:", "read");
    let w = string_of(word.as_slice());
    let action = to_lowercase(w.as_str());
    turing_command_for(desc, action.as_str())
}

/// The cells a range read visits along one axis: from `min` to `min` plus the
/// distance to `max`, capped at 20.
pub open spec fn spec_axis_window(min: int, max: int) -> (int, int) {
    let d = if max >= min { max - min } else { min - max };
    (min, min + if d < 20 { d } else { 20 })
}

/// The window of one axis for a range read.  The distance and the window end
/// are computed in `i32`, so the inputs must keep them in range: the distance
/// `max - min` and its absolute value, and `min` plus the capped distance.
pub fn axis_window(min: i32, max: i32) -> (r: (i32, i32))
    requires
        i32::MIN < max - min <= i32::MAX,
        spec_axis_window(min as int, max as int).1 <= i32::MAX,
    ensures
        (r.0 as int, r.1 as int) == spec_axis_window(min as int, max as int),
{
    let d = if max >= min { max - min } else { min - max };
    let b = if d < 20 { d } else { 20 };
    (min, min + b)
}

} // verus!
