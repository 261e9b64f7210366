//! The file system tool: reading a request, guarding the containment
//! boundary, and the text edit a patch makes.  Files are read and written
//! outside this crate.
use vstd::prelude::*;
use crate::containment::{check_path, spec_check_path};
use crate::models::{tool_error, ToolError};
use crate::params::or_default;
use crate::tags::{extract_payload_chars, extract_tag_chars, spec_extract_tag, spec_payload};
use crate::text::{
    append_chars, append_str, chars_of, contains, find, find_exec, owned, slice_copy, str_eq,
    string_of, tail, lemma_find_spec,
};

verus! {

/// A request to the file system tool, about the path it names.
pub enum FsCommand {
    /// Write `content` to the file, creating its directory.
    Write { content: String },
    /// Append `content` to the file.
    Append { content: String },
    /// Delete the file or directory.
    Delete,
    /// Replace the first occurrence of `find` in the file by `replace`.
    Patch { find: String, replace: String },
}

pub enum FsSpec {
    Write(Seq<char>),
    Append(Seq<char>),
    Delete,
    Patch(Seq<char>, Seq<char>),
}

impl View for FsCommand {
    type V = FsSpec;

    open spec fn view(&self) -> FsSpec {
        match self {
            FsCommand::Write { content } => FsSpec::Write(content@),
            FsCommand::Append { content } => FsSpec::Append(content@),
            FsCommand::Delete => FsSpec::Delete,
            FsCommand::Patch { find, replace } => FsSpec::Patch(find@, replace@),
        }
    }
}

/// A bracket-matched payload, empty when absent.
pub open spec fn payload_or_empty(desc: Seq<char>, prefix: Seq<char>) -> Seq<char> {
    or_default(spec_payload(desc, prefix), Seq::empty())
}

/// The request `desc` makes and the path it is about.  Refused without an
/// action or a path, for a path on the containment boundary, for a patch
/// without text to find, and for an unknown action.
pub open spec fn spec_fs_command(desc: Seq<char>) -> Result<(Seq<char>, FsSpec), (Seq<char>, Seq<char>)> {
    let action = or_default(spec_extract_tag(desc, "action:"@), Seq::empty());
    let path = or_default(spec_extract_tag(desc, "path:"@), Seq::empty());
    if action.len() == 0 || path.len() == 0 {
        Err(("Error: Missing action:[...] or path:[...]"@, "Invalid Args"@))
    } else {
        match spec_check_path(path) {
            Some(p) => Err(
                (
                    "CONTAINMENT VIOLATION: '"@ + p
                        + "' is part of the Docker containment boundary and cannot be modified. You may edit any other file freely."@,
                    "Containment Boundary"@,
                ),
            ),
            None => if action == "write"@ {
                Ok((path, FsSpec::Write(payload_or_empty(desc, "content:["@))))
            } else if action == "append"@ {
                Ok((path, FsSpec::Append(payload_or_empty(desc, "content:["@))))
            } else if action == "delete"@ {
                Ok((path, FsSpec::Delete))
            } else if action == "patch"@ {
                let f = payload_or_empty(desc, "find:["@);
                if f.len() == 0 {
                    let m = "Error: Missing find:[...] payload for patch."@;
                    Err((m, m))
                } else {
                    Ok((path, FsSpec::Patch(f, payload_or_empty(desc, "replace:["@))))
                }
            } else {
                let m = "Unknown action: "@ + action;
                Err((m, m))
            },
        }
    }
}

fn tag_or_empty(d: &[char], tag: &str) -> (r: Vec<char>)
    ensures
        r@ == or_default(spec_extract_tag(d@, tag@), Seq::empty()),
{
    let g = chars_of(tag);
    match extract_tag_chars(d, g.as_slice()) {
        Some(v) => v,
        None => Vec::new(),
    }
}

fn payload(d: &[char], prefix: &str) -> (r: String)
    ensures
        r@ == payload_or_empty(d@, prefix@),
{
    let g = chars_of(prefix);
    match extract_payload_chars(d, g.as_slice()) {
        Some(v) => string_of(v.as_slice()),
        None => String::new(),
    }
}

/// A refusal whose reason is its text.
fn refusal(text: Vec<char>) -> (r: ToolError)
    ensures
        r.output@ == text@,
        r.reason@ == text@,
{
    ToolError { output: string_of(text.as_slice()), reason: string_of(text.as_slice()) }
}

/// The file system request that `desc` makes, with its path.
pub fn parse_fs_command(desc: &str) -> (r: Result<(String, FsCommand), ToolError>)
    ensures
        match spec_fs_command(desc@) {
            Ok((p, c)) => r matches Ok((x, y)) && x@ == p && y@ == c,
            Err((o, m)) => r matches Err(e) && e.output@ == o && e.reason@ == m,
        },
{
    let dv = chars_of(desc);
    let d = dv.as_slice();
    let action = tag_or_empty(d, "action:");
    let path = tag_or_empty(d, "path:");
    if action.len() == 0 || path.len() == 0 {
        return Err(tool_error("Error: Missing action:[...] or path:[...]", "Invalid Args"));
    }
    let path_s = string_of(path.as_slice());
    match check_path(path_s.as_str()) {
        Some(p) => {
            let mut o: Vec<char> = Vec::new();
            append_str(&mut o, "CONTAINMENT VIOLATION: '");
            append_str(&mut o, p);
            append_str(
                &mut o,
                "' is part of the Docker containment boundary and cannot be modified. You may edit any other file freely.",
            );
            return Err(ToolError { output: string_of(o.as_slice()), reason: owned("Containment Boundary") });
        },
        None => {},
    }
    let a = string_of(action.as_slice());
    if str_eq(a.as_str(), "write") {
        Ok((path_s, FsCommand::Write { content: payload(d, "content:[") }))
    } else if str_eq(a.as_str(), "append") {
        Ok((path_s, FsCommand::Append { content: payload(d, "content:[") }))
    } else if str_eq(a.as_str(), "delete") {
        Ok((path_s, FsCommand::Delete))
    } else if str_eq(a.as_str(), "patch") {
        let f = payload(d, "find:[");
        if f.as_str().unicode_len() == 0 {
            Err(refusal(chars_of("Error: Missing find:[...] payload for patch.")))
        } else {
            Ok((path_s, FsCommand::Patch { find: f, replace: payload(d, "replace:[") }))
        }
    } else {
        let mut o: Vec<char> = Vec::new();
        append_str(&mut o, "Unknown action: ");
        append_chars(&mut o, action.as_slice());
        Err(refusal(o))
    }
}

/// What a file system operation did, or which step of it failed.
pub enum FsOutcome {
    Wrote,
    Appended,
    DeletedFile,
    DeletedDirectory,
    /// A delete of a path that does not exist.
    Absent,
    Patched,
    /// A step failed with an I/O error; `step` names it as the answer does
    /// (`write`, `append`, `open for append`, `delete file`, `delete directory`,
    /// `write patch`, `read file for patching`).
    Failed { step: &'static str, message: String },
}

/// The answer to a file system operation on `path`.
pub open spec fn spec_fs_outcome_text(o: FsOutcome, path: Seq<char>) -> Seq<char> {
    match o {
        FsOutcome::Wrote => "Successfully wrote to "@ + path,
        FsOutcome::Appended => "Successfully appended to "@ + path,
        FsOutcome::DeletedFile => "Successfully deleted file "@ + path,
        FsOutcome::DeletedDirectory => "Successfully deleted directory "@ + path,
        FsOutcome::Absent => "Successfully verified "@ + path + " does not exist"@,
        FsOutcome::Patched => "Successfully patched file "@ + path,
        FsOutcome::Failed { step, message } => "Failed to "@ + step@ + ": "@ + message@,
    }
}

/// The answer to a file system operation on `path`, and whether it failed
/// (a failed operation's reason is its answer).
pub fn fs_outcome_text(o: &FsOutcome, path: &str) -> (r: (String, bool))
    ensures
        r.0@ == spec_fs_outcome_text(*o, path@),
        r.1 == (*o is Failed),
{
    let mut t: Vec<char> = Vec::new();
    match o {
        FsOutcome::Wrote => {
            append_str(&mut t, "Successfully wrote to ");
            append_str(&mut t, path);
        },
        FsOutcome::Appended => {
            append_str(&mut t, "Successfully appended to ");
            append_str(&mut t, path);
        },
        FsOutcome::DeletedFile => {
            append_str(&mut t, "Successfully deleted file ");
            append_str(&mut t, path);
        },
        FsOutcome::DeletedDirectory => {
            append_str(&mut t, "Successfully deleted directory ");
            append_str(&mut t, path);
        },
        FsOutcome::Absent => {
            append_str(&mut t, "Successfully verified ");
            append_str(&mut t, path);
            append_str(&mut t, " does not exist");
        },
        FsOutcome::Patched => {
            append_str(&mut t, "Successfully patched file ");
            append_str(&mut t, path);
        },
        FsOutcome::Failed { step, message } => {
            append_str(&mut t, "Failed to ");
            append_str(&mut t, step);
            append_str(&mut t, ": ");
            append_str(&mut t, message.as_str());
        },
    }
    (string_of(t.as_slice()), matches!(o, FsOutcome::Failed { .. }))
}

pub const PATCH_NOT_FOUND_TEXT: &'static str = "Error: The target find:[...] block was not found in the file exactly as provided. Check spacing/indentation.";

/// `text` with its first occurrence of `target` replaced by `replacement`;
/// refused when `target` does not occur.
pub open spec fn spec_apply_patch(text: Seq<char>, target: Seq<char>, replacement: Seq<char>) -> Result<Seq<char>, Seq<char>> {
    match find(text, target) {
        Some(i) => Ok(text.subrange(0, i) + replacement + tail(text, i + target.len())),
        None => Err(PATCH_NOT_FOUND_TEXT@),
    }
}

/// The patched text of a file.
pub fn apply_patch(text: &str, target: &str, replacement: &str) -> (r: Result<String, String>)
    ensures
        match spec_apply_patch(text@, target@, replacement@) {
            Ok(t) => r matches Ok(x) && x@ == t,
            Err(e) => r matches Err(x) && x@ == e,
        },
{
    let t = chars_of(text);
    let f = chars_of(target);
    match find_exec(t.as_slice(), f.as_slice()) {
        Some(i) => {
            let fl = f.len();
            assert(i + fl <= t@.len() && t@.len() == t.len() && fl == target@.len());
            let mut out = slice_copy(t.as_slice(), 0, i);
            append_str(&mut out, replacement);
            let rest = slice_copy(t.as_slice(), i + fl, t.len());
            append_chars(&mut out, rest.as_slice());
            Ok(string_of(out.as_slice()))
        },
        None => Err(owned(PATCH_NOT_FOUND_TEXT)),
    }
}


/// A patch whose replacement is the text it looks for leaves a file as it was,
/// and any patch that applies keeps what stands before the first occurrence
/// and puts the replacement right after it.
pub proof fn law_patch_in_place(text: Seq<char>, target: Seq<char>, replacement: Seq<char>)
    ensures
        spec_apply_patch(text, target, replacement) is Ok <==> contains(text, target),
        spec_apply_patch(text, target, target) is Ok ==> spec_apply_patch(text, target, target) == Ok::<
            Seq<char>,
            Seq<char>,
        >(text),
        spec_apply_patch(text, target, replacement) matches Ok(t) ==> {
            let i = find(text, target).unwrap();
            &&& t.subrange(0, i) == text.subrange(0, i)
            &&& t.subrange(i, i + replacement.len()) == replacement
        },
{
    lemma_find_spec(text, target);
    match find(text, target) {
        Some(i) => {
            let t = text.subrange(0, i) + target + tail(text, i + target.len());
            assert(text.subrange(i, i + target.len()) =~= target);
            assert(t =~= text);
            let u = text.subrange(0, i) + replacement + tail(text, i + target.len());
            assert(u.subrange(0, i) =~= text.subrange(0, i));
            assert(u.subrange(i, i + replacement.len()) =~= replacement);
        },
        None => {},
    }
}

} // verus!
