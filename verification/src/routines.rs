//! The routine tool: notes of how the agent does recurring work.  The request
//! is read here; the files are written and read outside this crate.
use vstd::prelude::*;
pub use crate::tags::extract_bracket_tag as extract_tag;
use crate::library::spec_new_file_content;
use crate::models::{tool_error, ToolError};
use crate::params::or_default;
use crate::skills::traverses;
use crate::tags::{extract_bracket_tag_chars, spec_bracket_tag};
use crate::text::{append_str, chars_of, contains_exec, ends_with, ends_with_exec, owned, str_eq, string_of};

verus! {

/// A request to the routine library (the directory is chosen from `scope`).
pub enum RoutineCommand {
    List,
    Create { name: String, content: String },
    Read { name: String },
    /// Answer with this text and do nothing.
    Reply { text: String },
}

pub enum RoutineSpec {
    List,
    Create(Seq<char>, Seq<char>),
    Read(Seq<char>),
    Reply(Seq<char>),
}

impl View for RoutineCommand {
    type V = RoutineSpec;

    open spec fn view(&self) -> RoutineSpec {
        match self {
            RoutineCommand::List => RoutineSpec::List,
            RoutineCommand::Create { name, content } => RoutineSpec::Create(name@, content@),
            RoutineCommand::Read { name } => RoutineSpec::Read(name@),
            RoutineCommand::Reply { text } => RoutineSpec::Reply(text@),
        }
    }
}

/// The request `desc` makes of the routine library, with the scope name it
/// names (`public_general` by default).
pub open spec fn spec_routine_command(desc: Seq<char>) -> Result<(Seq<char>, RoutineSpec), (Seq<char>, Seq<char>)> {
    let action = or_default(spec_bracket_tag(desc, "action:"@), "list"@);
    let name = or_default(spec_bracket_tag(desc, "name:"@), ""@);
    let scope = or_default(spec_bracket_tag(desc, "scope:"@), "public_general"@);
    if traverses(name) {
        Err(("Error: Invalid routine name."@, "Path traversal"@))
    } else if action == "list"@ {
        Ok((scope, RoutineSpec::List))
    } else if action == "create"@ {
        if name.len() == 0 || !ends_with(name, ".md"@) {
            Ok((scope, RoutineSpec::Reply("Error: Routine name must end with .md"@)))
        } else {
            match spec_new_file_content(desc) {
                Some(c) => Ok((scope, RoutineSpec::Create(name, c))),
                None => Err(("Error: Missing content."@, "No content"@)),
            }
        }
    } else if action == "read"@ {
        if name.len() == 0 {
            Ok((scope, RoutineSpec::Reply("Error: Must specify name:[routine.md]"@)))
        } else {
            Ok((scope, RoutineSpec::Read(name)))
        }
    } else {
        Ok((scope, RoutineSpec::Reply("Unknown action '"@ + action + "'. Use create, list, or read."@)))
    }
}

fn bracket_or(d: &[char], tag: &str, dflt: &str) -> (r: Vec<char>)
    ensures
        r@ == or_default(spec_bracket_tag(d@, tag@), dflt@),
{
    let g = chars_of(tag);
    match extract_bracket_tag_chars(d, g.as_slice()) {
        Some(v) => v,
        None => chars_of(dflt),
    }
}

/// The routine library request that `desc` makes.
pub fn parse_routine_command(desc: &str) -> (r: Result<(String, RoutineCommand), ToolError>)
    ensures
        match spec_routine_command(desc@) {
            Ok((s, c)) => r matches Ok((x, y)) && x@ == s && y@ == c,
            Err((o, m)) => r matches Err(e) && e.output@ == o && e.reason@ == m,
        },
{
    let dv = chars_of(desc);
    let d = dv.as_slice();
    let action = string_of(bracket_or(d, "action:", "list").as_slice());
    let name = string_of(bracket_or(d, "name:", "").as_slice());
    let scope = string_of(bracket_or(d, "scope:", "public_general").as_slice());
    let n = chars_of(name.as_str());
    let dd = chars_of("..");
    let sl = chars_of("/");
    if contains_exec(n.as_slice(), dd.as_slice()) || contains_exec(n.as_slice(), sl.as_slice()) {
        return Err(tool_error("Error: Invalid routine name.", "Path traversal"));
    }
    let a = action.as_str();
    if str_eq(a, "list") {
        Ok((scope, RoutineCommand::List))
    } else if str_eq(a, "create") {
        let md = chars_of(".md");
        if n.len() == 0 || !ends_with_exec(n.as_slice(), md.as_slice()) {
            Ok((scope, RoutineCommand::Reply { text: owned("Error: Routine name must end with .md") }))
        } else {
            match crate::library::new_file_content(desc) {
                Some(c) => Ok((scope, RoutineCommand::Create { name, content: c })),
                None => Err(tool_error("Error: Missing content.", "No content")),
            }
        }
    } else if str_eq(a, "read") {
        if n.len() == 0 {
            Ok((scope, RoutineCommand::Reply { text: owned("Error: Must specify name:[routine.md]") }))
        } else {
            Ok((scope, RoutineCommand::Read { name }))
        }
    } else {
        let mut o: Vec<char> = Vec::new();
        append_str(&mut o, "Unknown action '");
        append_str(&mut o, a);
        append_str(&mut o, "'. Use create, list, or read.");
        Ok((scope, RoutineCommand::Reply { text: string_of(o.as_slice()) }))
    }
}

} // verus!
