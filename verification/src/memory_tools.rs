//! The scratchpad and knowledge-graph tools: what a request asks of the
//! memory store, and the answers made from what the store reports.  The
//! store itself is kept outside this crate.
use vstd::prelude::*;
use crate::containment::{lowercase, to_lowercase};
use crate::fmt::{decimal, decimal_chars};
use crate::models::{tool_error, ToolError};
use crate::params::or_default;
use crate::tags::{extract_tag_chars, spec_extract_tag};
use crate::text::{append_chars, append_str, chars_of, owned, parse_usize, spec_parse_unsigned, str_eq, string_of, trim, trim_exec};

verus! {

/// The value of `tag` in `desc`, empty when absent.
pub open spec fn tag_text(desc: Seq<char>, tag: Seq<char>) -> Seq<char> {
    or_default(spec_extract_tag(desc, tag), Seq::empty())
}

fn tag_string(d: &[char], tag: &str) -> (r: String)
    ensures
        r@ == tag_text(d@, tag@),
{
    let g = chars_of(tag);
    match extract_tag_chars(d, g.as_slice()) {
        Some(v) => string_of(v.as_slice()),
        None => String::new(),
    }
}

/// The lower-cased action of a request, empty when absent.
pub open spec fn action_of(desc: Seq<char>) -> Seq<char> {
    lowercase(tag_text(desc, "action:"@))
}

fn action_exec(d: &[char]) -> (r: String)
    ensures
        r@ == action_of(d@),
{
    let raw = tag_string(d, "action:");
    to_lowercase(raw.as_str())
}

pub open spec fn missing_action() -> (Seq<char>, Seq<char>) {
    ("Error: Missing 'action:' field."@, "Missing action field"@)
}

// ───────────────────────── the scratchpad ─────────────────────────

/// A request to the scratchpad of the current conversation.
#[derive(Debug)]
pub enum ScratchpadCommand {
    Read,
    /// Replace the scratchpad with `content`.
    Write { content: String },
    /// Add `content` at the end of the scratchpad.
    Append { content: String },
    Clear,
}

/// The request `desc` makes of the scratchpad.
pub open spec fn scratchpad_command_is(r: Result<ScratchpadCommand, ToolError>, desc: Seq<char>) -> bool {
    let a = action_of(desc);
    let content = tag_text(desc, "content:"@);
    if a.len() == 0 {
        r matches Err(e) && e.output@ == missing_action().0 && e.reason@ == missing_action().1
    } else if a == "read"@ {
        r matches Ok(ScratchpadCommand::Read)
    } else if a == "write"@ || a == "append"@ {
        if content.len() == 0 {
            r matches Err(e) && e.output@ == "Error: Missing 'content:' field for "@ + a + " action."@
                && e.reason@ == "Missing field"@
        } else if a == "write"@ {
            r matches Ok(ScratchpadCommand::Write { content: c }) && c@ == content
        } else {
            r matches Ok(ScratchpadCommand::Append { content: c }) && c@ == content
        }
    } else if a == "clear"@ {
        r matches Ok(ScratchpadCommand::Clear)
    } else {
        r matches Err(e) && e.output@ == "Unknown action '"@ + a + "'. Valid actions: read, write, append, clear."@
            && e.reason@ == "Unknown action"@
    }
}

/// The scratchpad request that `desc` makes.
pub fn parse_scratchpad_command(desc: &str) -> (r: Result<ScratchpadCommand, ToolError>)
    ensures
        scratchpad_command_is(r, desc@),
{
    let dv = chars_of(desc);
    let d = dv.as_slice();
    let a = action_exec(d);
    let content = tag_string(d, "content:");
    if a.as_str().unicode_len() == 0 {
        return Err(tool_error("Error: Missing 'action:' field.", "Missing action field"));
    }
    if str_eq(a.as_str(), "read") {
        return Ok(ScratchpadCommand::Read);
    }
    if str_eq(a.as_str(), "write") || str_eq(a.as_str(), "append") {
        if content.as_str().unicode_len() == 0 {
            let mut o = chars_of("Error: Missing 'content:' field for ");
            append_str(&mut o, a.as_str());
            append_str(&mut o, " action.");
            return Err(ToolError { output: string_of(o.as_slice()), reason: owned("Missing field") });
        }
        if str_eq(a.as_str(), "write") {
            return Ok(ScratchpadCommand::Write { content });
        }
        return Ok(ScratchpadCommand::Append { content });
    }
    if str_eq(a.as_str(), "clear") {
        return Ok(ScratchpadCommand::Clear);
    }
    let mut o = chars_of("Unknown action '");
    append_str(&mut o, a.as_str());
    append_str(&mut o, "'. Valid actions: read, write, append, clear.");
    Err(ToolError { output: string_of(o.as_slice()), reason: owned("Unknown action") })
}

/// What reading the scratchpad shows: a note when it holds only blanks.
pub open spec fn spec_scratchpad_view(data: Seq<char>) -> Seq<char> {
    if trim(data).len() == 0 {
        "Scratchpad is completely empty."@
    } else {
        "[SCRATCHPAD CONTENTS]\n\n"@ + data
    }
}

/// What reading the scratchpad shows.
pub fn scratchpad_view(data: &str) -> (r: String)
    ensures
        r@ == spec_scratchpad_view(data@),
{
    let d = chars_of(data);
    if trim_exec(d.as_slice()).len() == 0 {
        return owned("Scratchpad is completely empty.");
    }
    let mut o = chars_of("[SCRATCHPAD CONTENTS]\n\n");
    append_chars(&mut o, d.as_slice());
    string_of(o.as_slice())
}

/// The answer to a change of the scratchpad, from what the store reported.
pub fn scratchpad_changed(cmd: &ScratchpadCommand, stored: Result<(), String>) -> (r: Result<String, ToolError>)
    requires
        !(cmd is Read),
    ensures
        match stored {
            Ok(_) => r matches Ok(m) && m@ == match cmd {
                ScratchpadCommand::Write { .. } => "Scratchpad overwritten successfully."@,
                ScratchpadCommand::Append { .. } => "Scratchpad appended successfully."@,
                _ => "Scratchpad completely cleared."@,
            },
            Err(e) => r matches Err(x) && x.reason@ == e@ && x.output@ == match cmd {
                ScratchpadCommand::Write { .. } => "Failed to write: "@,
                ScratchpadCommand::Append { .. } => "Failed to append: "@,
                _ => "Failed to clear: "@,
            } + e@,
        },
{
    match stored {
        Ok(_) => Ok(
            owned(
                match cmd {
                    ScratchpadCommand::Write { .. } => "Scratchpad overwritten successfully.",
                    ScratchpadCommand::Append { .. } => "Scratchpad appended successfully.",
                    _ => "Scratchpad completely cleared.",
                },
            ),
        ),
        Err(e) => {
            let mut o = chars_of(
                match cmd {
                    ScratchpadCommand::Write { .. } => "Failed to write: ",
                    ScratchpadCommand::Append { .. } => "Failed to append: ",
                    _ => "Failed to clear: ",
                },
            );
            append_str(&mut o, e.as_str());
            Err(ToolError { output: string_of(o.as_slice()), reason: e })
        },
    }
}

// ───────────────────────── the knowledge graph ─────────────────────────

/// A request to the knowledge graph.
#[derive(Debug)]
pub enum GraphCommand {
    /// Record `data` about `concept`.
    Store { concept: String, data: String },
    /// Find what is known of `concept`.
    Search { concept: String },
    /// The `limit` firmest beliefs.
    Beliefs { limit: usize },
    /// Record that `from` stands in `relation` to `to`.
    Relate { from: String, relation: String, to: String },
    /// The node and edge counts.
    Stats,
}

pub const RELATE_USAGE_TEXT: &'static str = "Error: 'relate' requires 'from:', 'to:', and 'relation:' fields. Example: action:[relate] from:[Apple] relation:[is_a] to:[Fruit]";

/// The request `desc` makes of the knowledge graph.
pub open spec fn graph_command_is(r: Result<GraphCommand, ToolError>, desc: Seq<char>) -> bool {
    let a = action_of(desc);
    let concept = tag_text(desc, "concept:"@);
    let data = tag_text(desc, "data:"@);
    if a.len() == 0 {
        r matches Err(e) && e.output@ == missing_action().0 && e.reason@ == missing_action().1
    } else if a == "store"@ {
        if concept.len() == 0 {
            r matches Err(e) && e.output@ == "Error: Missing 'concept:' field for store action."@ && e.reason@
                == "Missing field"@
        } else if data.len() == 0 {
            r matches Err(e) && e.output@ == "Error: Missing 'data:' field for store action."@ && e.reason@
                == "Missing field"@
        } else {
            r matches Ok(GraphCommand::Store { concept: c, data: x }) && c@ == concept && x@ == data
        }
    } else if a == "search"@ {
        if concept.len() == 0 {
            r matches Err(e) && e.output@ == "Error: Missing 'concept:' field for search action."@ && e.reason@
                == "Missing field"@
        } else {
            r matches Ok(GraphCommand::Search { concept: c }) && c@ == concept
        }
    } else if a == "beliefs"@ {
        r matches Ok(GraphCommand::Beliefs { limit }) && limit as nat == match spec_parse_unsigned(
            or_default(spec_extract_tag(desc, "limit:"@), "10"@),
            usize::MAX as nat,
        ) {
            Some(n) => n,
            None => 10,
        }
    } else if a == "relate"@ {
        let from = tag_text(desc, "from:"@);
        let to = tag_text(desc, "to:"@);
        let relation = tag_text(desc, "relation:"@);
        if from.len() == 0 || to.len() == 0 || relation.len() == 0 {
            r matches Err(e) && e.output@ == RELATE_USAGE_TEXT@ && e.reason@ == "Missing fields"@
        } else {
            r matches Ok(GraphCommand::Relate { from: f, relation: x, to: t }) && f@ == from && x@ == relation
                && t@ == to
        }
    } else if a == "stats"@ {
        r matches Ok(GraphCommand::Stats)
    } else {
        r matches Err(e) && e.output@ == "Unknown action '"@ + a
            + "'. Valid actions: store, search, beliefs, relate, stats."@ && e.reason@ == "Unknown action"@
    }
}

fn missing_field(text: &str) -> (r: ToolError)
    ensures
        r.output@ == text@,
        r.reason@ == "Missing field"@,
{
    tool_error(text, "Missing field")
}

/// The knowledge-graph request that `desc` makes.
pub fn parse_graph_command(desc: &str) -> (r: Result<GraphCommand, ToolError>)
    ensures
        graph_command_is(r, desc@),
{
    let dv = chars_of(desc);
    let d = dv.as_slice();
    let a = action_exec(d);
    let concept = tag_string(d, "concept:");
    let data = tag_string(d, "data:");
    if a.as_str().unicode_len() == 0 {
        return Err(tool_error("Error: Missing 'action:' field.", "Missing action field"));
    }
    if str_eq(a.as_str(), "store") {
        if concept.as_str().unicode_len() == 0 {
            return Err(missing_field("Error: Missing 'concept:' field for store action."));
        }
        if data.as_str().unicode_len() == 0 {
            return Err(missing_field("Error: Missing 'data:' field for store action."));
        }
        return Ok(GraphCommand::Store { concept, data });
    }
    if str_eq(a.as_str(), "search") {
        if concept.as_str().unicode_len() == 0 {
            return Err(missing_field("Error: Missing 'concept:' field for search action."));
        }
        return Ok(GraphCommand::Search { concept });
    }
    if str_eq(a.as_str(), "beliefs") {
        let g = chars_of("limit:");
        let text = match extract_tag_chars(d, g.as_slice()) {
            Some(v) => v,
            None => chars_of("10"),
        };
        let limit: usize = match parse_usize(text.as_slice()) {
            Some(n) => n,
            None => 10,
        };
        return Ok(GraphCommand::Beliefs { limit });
    }
    if str_eq(a.as_str(), "relate") {
        let from = tag_string(d, "from:");
        let to = tag_string(d, "to:");
        let relation = tag_string(d, "relation:");
        if from.as_str().unicode_len() == 0 || to.as_str().unicode_len() == 0 || relation.as_str().unicode_len() == 0 {
            return Err(tool_error(RELATE_USAGE_TEXT, "Missing fields"));
        }
        return Ok(GraphCommand::Relate { from, relation, to });
    }
    if str_eq(a.as_str(), "stats") {
        return Ok(GraphCommand::Stats);
    }
    let mut o = chars_of("Unknown action '");
    append_str(&mut o, a.as_str());
    append_str(&mut o, "'. Valid actions: store, search, beliefs, relate, stats.");
    Err(ToolError { output: string_of(o.as_slice()), reason: owned("Unknown action") })
}

/// Lines joined by `sep`.
pub open spec fn joined_by(ls: Seq<Seq<char>>, sep: Seq<char>) -> Seq<char>
    decreases ls.len(),
{
    if ls.len() == 0 {
        Seq::empty()
    } else if ls.len() == 1 {
        ls[0]
    } else {
        joined_by(ls.drop_last(), sep) + sep + ls.last()
    }
}

pub open spec fn strs(v: Seq<String>) -> Seq<Seq<char>> {
    v.map_values(|s: String| s@)
}

fn join_exec(items: &Vec<String>, sep: &str) -> (r: Vec<char>)
    ensures
        r@ == joined_by(strs(items@), sep@),
{
    let ghost all = strs(items@);
    let mut o: Vec<char> = Vec::new();
    let mut k: usize = 0;
    while k < items.len()
        invariant
            k <= items@.len(),
            all == strs(items@),
            o@ == joined_by(all.subrange(0, k as int), sep@),
        decreases items.len() - k,
    {
        let ghost next = all.subrange(0, k + 1);
        assert(next.drop_last() =~= all.subrange(0, k as int));
        assert(next.last() == items@[k as int]@);
        if k > 0 {
            append_str(&mut o, sep);
        } else {
            assert(next.len() == 1);
        }
        append_str(&mut o, items[k].as_str());
        k = k + 1;
    }
    assert(all.subrange(0, all.len() as int) =~= all);
    o
}

/// The answer to a search of the graph.
pub open spec fn spec_graph_search_reply(concept: Seq<char>, results: Seq<Seq<char>>) -> Seq<char> {
    if results.len() == 0 {
        "No nodes found for concept '"@ + concept + "'."@
    } else {
        "Synaptic Results for '"@ + concept + "':\n"@ + joined_by(results, "\n"@)
    }
}

/// The answer to a search of the graph.
pub fn graph_search_reply(concept: &str, results: &Vec<String>) -> (r: String)
    ensures
        r@ == spec_graph_search_reply(concept@, strs(results@)),
{
    if results.len() == 0 {
        let mut o = chars_of("No nodes found for concept '");
        append_str(&mut o, concept);
        append_str(&mut o, "'.");
        return string_of(o.as_slice());
    }
    let mut o = chars_of("Synaptic Results for '");
    append_str(&mut o, concept);
    append_str(&mut o, "':\n");
    let j = join_exec(results, "\n");
    append_chars(&mut o, j.as_slice());
    string_of(o.as_slice())
}

/// The answer to a request for the firmest beliefs.
pub open spec fn spec_beliefs_reply(beliefs: Seq<Seq<char>>) -> Seq<char> {
    if beliefs.len() == 0 {
        "No core beliefs firmly established in the graph yet."@
    } else {
        "Core System Beliefs:\n- "@ + joined_by(beliefs, "\n- "@)
    }
}

/// The answer to a request for the firmest beliefs.
pub fn beliefs_reply(beliefs: &Vec<String>) -> (r: String)
    ensures
        r@ == spec_beliefs_reply(strs(beliefs@)),
{
    if beliefs.len() == 0 {
        return owned("No core beliefs firmly established in the graph yet.");
    }
    let mut o = chars_of("Core System Beliefs:\n- ");
    let j = join_exec(beliefs, "\n- ");
    append_chars(&mut o, j.as_slice());
    string_of(o.as_slice())
}

/// The answer to a stored concept.
pub fn concept_stored_reply(concept: &str) -> (r: String)
    ensures
        r@ == "Concept '"@ + concept@ + "' stored in the synaptic graph."@,
{
    let mut o = chars_of("Concept '");
    append_str(&mut o, concept);
    append_str(&mut o, "' stored in the synaptic graph.");
    string_of(o.as_slice())
}

/// The answer to a stored relationship.
pub fn relation_stored_reply(from: &str, relation: &str, to: &str) -> (r: String)
    ensures
        r@ == "Relationship stored: '"@ + from@ + "' --["@ + relation@ + "]--> '"@ + to@ + "'"@,
{
    let mut o = chars_of("Relationship stored: '");
    append_str(&mut o, from);
    append_str(&mut o, "' --[");
    append_str(&mut o, relation);
    append_str(&mut o, "]--> '");
    append_str(&mut o, to);
    append_str(&mut o, "'");
    string_of(o.as_slice())
}

/// The answer to a request for the graph's size.
pub fn graph_stats_reply(nodes: usize, edges: usize) -> (r: String)
    ensures
        r@ == "Synaptic Graph Stats:\n- Nodes (concepts): "@ + decimal(nodes as nat)
            + "\n- Edges (relationships): "@ + decimal(edges as nat),
{
    let mut o = chars_of("Synaptic Graph Stats:\n- Nodes (concepts): ");
    let n = decimal_chars(nodes as u64);
    append_chars(&mut o, n.as_slice());
    append_str(&mut o, "\n- Edges (relationships): ");
    let e = decimal_chars(edges as u64);
    append_chars(&mut o, e.as_slice());
    string_of(o.as_slice())
}

} // verus!
