//! The skill tool: scripts an administrator lets the agent keep and run.  The
//! request is read here; the files are written and run outside this crate.
use vstd::prelude::*;
pub use crate::tags::extract_bracket_tag as extract_tag;
use crate::library::spec_new_file_content;
use crate::models::{tool_error, ToolError};
use crate::params::or_default;
use crate::tags::{extract_bracket_tag_chars, spec_bracket_tag};
use crate::text::{append_str, chars_of, contains, contains_exec, ends_with, ends_with_exec, owned, str_eq, string_of};

verus! {

/// A request to the skill library (the directory is chosen from `scope`).
pub enum SkillCommand {
    /// List the skills.
    List,
    /// Write a skill.
    Create { name: String, content: String },
    /// Run a skill.
    Execute { name: String },
    /// Answer with this text and do nothing.
    Reply { text: String },
}

pub enum SkillSpec {
    List,
    Create(Seq<char>, Seq<char>),
    Execute(Seq<char>),
    Reply(Seq<char>),
}

impl View for SkillCommand {
    type V = SkillSpec;

    open spec fn view(&self) -> SkillSpec {
        match self {
            SkillCommand::List => SkillSpec::List,
            SkillCommand::Create { name, content } => SkillSpec::Create(name@, content@),
            SkillCommand::Execute { name } => SkillSpec::Execute(name@),
            SkillCommand::Reply { text } => SkillSpec::Reply(text@),
        }
    }
}

pub const SKILL_DENIED_TEXT: &'static str = "PERMISSION DENIED: The Skills System allows remote code execution and is strictly limited to Admin users. Request denied.";

/// A library file name is refused when it holds `..` or `/`.
pub open spec fn traverses(name: Seq<char>) -> bool {
    contains(name, ".."@) || contains(name, "/"@)
}

/// A skill is a Python or shell script.
pub open spec fn is_script(name: Seq<char>) -> bool {
    ends_with(name, ".py"@) || ends_with(name, ".sh"@)
}

/// The request `desc` makes of the skill library, with the scope name it
/// names (`public_general` by default): only administrators may use it.
pub open spec fn spec_skill_command(desc: Seq<char>, is_admin: bool) -> Result<(Seq<char>, SkillSpec), (Seq<char>, Seq<char>)> {
    let action = or_default(spec_bracket_tag(desc, "action:"@), "list"@);
    let name = or_default(spec_bracket_tag(desc, "name:"@), ""@);
    let scope = or_default(spec_bracket_tag(desc, "scope:"@), "public_general"@);
    if !is_admin {
        Err((SKILL_DENIED_TEXT@, "Permission Denied"@))
    } else if traverses(name) {
        Err(("Error: Invalid skill name."@, "Path traversal"@))
    } else if action == "list"@ {
        Ok((scope, SkillSpec::List))
    } else if action == "create"@ {
        if name.len() == 0 || !is_script(name) {
            Ok((scope, SkillSpec::Reply("Error: Skill name must end with .py or .sh"@)))
        } else {
            match spec_new_file_content(desc) {
                Some(c) => Ok((scope, SkillSpec::Create(name, c))),
                None => Err(("Error: Missing content."@, "No content"@)),
            }
        }
    } else if action == "execute"@ {
        if name.len() == 0 {
            Ok((scope, SkillSpec::Reply("Error: Must specify name:[skill.py]"@)))
        } else {
            Ok((scope, SkillSpec::Execute(name)))
        }
    } else {
        Ok((scope, SkillSpec::Reply("Unknown action '"@ + action + "'. Use create, list, or execute."@)))
    }
}

fn bracket_or(d: &[char], tag: &str, dflt: &str) -> (r: Vec<char>)
    ensures
        r@ == or_default(spec_bracket_tag(d@, tag@), dflt@),
{
    let g = chars_of(tag);
    match extract_bracket_tag_chars(d, g.as_slice()) {
        Some(v) => v,
        None => chars_of(dflt),
    }
}

fn reply(text: &str) -> (r: SkillCommand)
    ensures
        r@ == SkillSpec::Reply(text@),
{
    SkillCommand::Reply { text: owned(text) }
}

/// The skill library request that `desc` makes, for a user who is or is not
/// an administrator.
pub fn parse_skill_command(desc: &str, is_admin: bool) -> (r: Result<(String, SkillCommand), ToolError>)
    ensures
        match spec_skill_command(desc@, is_admin) {
            Ok((s, c)) => r matches Ok((x, y)) && x@ == s && y@ == c,
            Err((o, m)) => r matches Err(e) && e.output@ == o && e.reason@ == m,
        },
{
    if !is_admin {
        return Err(tool_error(SKILL_DENIED_TEXT, "Permission Denied"));
    }
    let dv = chars_of(desc);
    let d = dv.as_slice();
    let action = string_of(bracket_or(d, "action:", "list").as_slice());
    let name = string_of(bracket_or(d, "name:", "").as_slice());
    let scope = string_of(bracket_or(d, "scope:", "public_general").as_slice());
    let n = chars_of(name.as_str());
    let dd = chars_of("..");
    let sl = chars_of("/");
    if contains_exec(n.as_slice(), dd.as_slice()) || contains_exec(n.as_slice(), sl.as_slice()) {
        return Err(tool_error("Error: Invalid skill name.", "Path traversal"));
    }
    let a = action.as_str();
    if str_eq(a, "list") {
        Ok((scope, SkillCommand::List))
    } else if str_eq(a, "create") {
        let py = chars_of(".py");
        let sh = chars_of(".sh");
        if n.len() == 0 || !(ends_with_exec(n.as_slice(), py.as_slice()) || ends_with_exec(
            n.as_slice(),
            sh.as_slice(),
        )) {
            Ok((scope, reply("Error: Skill name must end with .py or .sh")))
        } else {
            match crate::library::new_file_content(desc) {
                Some(c) => Ok((scope, SkillCommand::Create { name, content: c })),
                None => Err(tool_error("Error: Missing content.", "No content")),
            }
        }
    } else if str_eq(a, "execute") {
        if n.len() == 0 {
            Ok((scope, reply("Error: Must specify name:[skill.py]")))
        } else {
            Ok((scope, SkillCommand::Execute { name }))
        }
    } else {
        let mut o: Vec<char> = Vec::new();
        append_str(&mut o, "Unknown action '");
        append_str(&mut o, a);
        append_str(&mut o, "'. Use create, list, or execute.");
        Ok((scope, SkillCommand::Reply { text: string_of(o.as_slice()) }))
    }
}

/// How a skill run ended.
pub enum SkillRun {
    Exited { success: bool, status: String, stdout: String, stderr: String },
    InvokeFailed { message: String },
    TimedOut,
}

/// The report of a skill run.
pub open spec fn spec_skill_report(r: SkillRun) -> Seq<char> {
    match r {
        SkillRun::Exited { success, status, stdout, stderr } => if success {
            "--- SKILL SUCCESS ---\n"@ + stdout@ + "\n"@ + stderr@
        } else {
            "--- SKILL FAILED (Code: "@ + status@ + ") ---\n"@ + stdout@ + "\n"@ + stderr@
        },
        SkillRun::InvokeFailed { message } => "Failed to invoke process: "@ + message@,
        SkillRun::TimedOut => "Skill execution timed out after 30 seconds. Process killed."@,
    }
}

/// The report of a skill run.
pub fn skill_report(r: &SkillRun) -> (out: String)
    ensures
        out@ == spec_skill_report(*r),
{
    let mut o: Vec<char> = Vec::new();
    match r {
        SkillRun::Exited { success, status, stdout, stderr } => {
            if *success {
                append_str(&mut o, "--- SKILL SUCCESS ---\n");
            } else {
                append_str(&mut o, "--- SKILL FAILED (Code: ");
                append_str(&mut o, status.as_str());
                append_str(&mut o, ") ---\n");
            }
            append_str(&mut o, stdout.as_str());
            append_str(&mut o, "\n");
            append_str(&mut o, stderr.as_str());
        },
        SkillRun::InvokeFailed { message } => {
            append_str(&mut o, "Failed to invoke process: ");
            append_str(&mut o, message.as_str());
        },
        SkillRun::TimedOut => {
            append_str(&mut o, "Skill execution timed out after 30 seconds. Process killed.");
        },
    }
    string_of(o.as_slice())
}

/// The interpreter of a skill: Python for a `.py` file, else the shell.
pub fn skill_interpreter(name: &str) -> (r: &'static str)
    ensures
        r@ == if ends_with(name@, ".py"@) { "python3"@ } else { "bash"@ },
{
    let n = chars_of(name);
    let py = chars_of(".py");
    if ends_with_exec(n.as_slice(), py.as_slice()) {
        "python3"
    } else {
        "bash"
    }
}

} // verus!
