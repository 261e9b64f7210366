//! The coding-agent bridge tool: the parameters it reads from a task
//! description, the checks it makes before touching the workspace, and the
//! text it reports.  The server process and its HTTP API are driven outside
//! this crate.
use vstd::prelude::*;
use crate::containment::{lowercase, to_lowercase};
use crate::fmt::{decimal, decimal_chars, one_decimal, one_decimal_chars};
use crate::models::{tool_error, ToolError};
use crate::tags::{
    extract_last_bracket_chars, extract_named_tag_chars, opt_str_is, spec_last_bracket,
    spec_named_tag,
};
use crate::text::{
    append_chars, append_str, chars_of, contains, contains_exec, str_eq, string_of,
};

verus! {

/// The value of `tag:[value]` in `desc`: up to the first `]`, trimmed.
pub fn extract_tag(desc: &str, tag: &str) -> (r: Option<String>)
    ensures
        opt_str_is(r, spec_named_tag(desc@, tag@)),
{
    let d = chars_of(desc);
    let k = chars_of(tag);
    match extract_named_tag_chars(d.as_slice(), k.as_slice()) {
        Some(v) => Some(string_of(v.as_slice())),
        None => None,
    }
}

/// The value of `message:[...]`: up to the last `]` of `desc`, so that the
/// message may itself hold brackets; trimmed.
pub fn extract_message(desc: &str) -> (r: Option<String>)
    ensures
        opt_str_is(r, spec_last_bracket(desc@, "message"@)),
{
    let d = chars_of(desc);
    let k = chars_of("message");
    match extract_last_bracket_chars(d.as_slice(), k.as_slice()) {
        Some(v) => Some(string_of(v.as_slice())),
        None => None,
    }
}

/// A project name is accepted when it is non-empty and holds neither `..` nor
/// `/`, so that it names a directory directly inside the workspace.
pub open spec fn spec_valid_project_name(name: Seq<char>) -> bool {
    name.len() > 0 && !contains(name, ".."@) && !contains(name, "/"@)
}

/// Whether `name` may be used as a project directory name.
pub fn valid_project_name(name: &str) -> (r: bool)
    ensures
        r == spec_valid_project_name(name@),
{
    let n = chars_of(name);
    let dd = chars_of("..");
    let sl = chars_of("/");
    n.len() > 0 && !contains_exec(n.as_slice(), dd.as_slice()) && !contains_exec(
        n.as_slice(),
        sl.as_slice(),
    )
}

/// A request to the coding-agent bridge.
pub enum OpenCodeCommand {
    /// Open (launching the server for) the named project.
    Open { project: String },
    /// Stop the server.
    Shutdown,
    /// Report whether the server runs.
    Status,
    /// Start a session with the given title, launching the server for
    /// `project` first when it is not running.
    CreateSession { title: String, project: String },
    /// Send `message` to a session, optionally naming a model.
    Prompt { session: String, message: String, model: Option<String> },
    /// Fetch the messages of a session.
    Messages { session: String },
    /// List the sessions.
    ListSessions,
    /// Abort a session.
    Abort { session: String },
    /// Create a project.
    CreateProject { name: String },
    /// List the projects.
    ListProjects,
    /// Pack a project for delivery.
    Zip { name: String },
    /// An action the bridge does not offer.
    Unknown { action: String },
}

/// The abstract value of an [`OpenCodeCommand`].
pub enum OpenCodeSpec {
    Open(Seq<char>),
    Shutdown,
    Status,
    CreateSession(Seq<char>, Seq<char>),
    Prompt(Seq<char>, Seq<char>, Option<Seq<char>>),
    Messages(Seq<char>),
    ListSessions,
    Abort(Seq<char>),
    CreateProject(Seq<char>),
    ListProjects,
    Zip(Seq<char>),
    Unknown(Seq<char>),
}

impl View for OpenCodeCommand {
    type V = OpenCodeSpec;

    open spec fn view(&self) -> OpenCodeSpec {
        match self {
            OpenCodeCommand::Open { project } => OpenCodeSpec::Open(project@),
            OpenCodeCommand::Shutdown => OpenCodeSpec::Shutdown,
            OpenCodeCommand::Status => OpenCodeSpec::Status,
            OpenCodeCommand::CreateSession { title, project } => OpenCodeSpec::CreateSession(
                title@,
                project@,
            ),
            OpenCodeCommand::Prompt { session, message, model } => OpenCodeSpec::Prompt(
                session@,
                message@,
                match model {
                    Some(m) => Some(m@),
                    None => None,
                },
            ),
            OpenCodeCommand::Messages { session } => OpenCodeSpec::Messages(session@),
            OpenCodeCommand::ListSessions => OpenCodeSpec::ListSessions,
            OpenCodeCommand::Abort { session } => OpenCodeSpec::Abort(session@),
            OpenCodeCommand::CreateProject { name } => OpenCodeSpec::CreateProject(name@),
            OpenCodeCommand::ListProjects => OpenCodeSpec::ListProjects,
            OpenCodeCommand::Zip { name } => OpenCodeSpec::Zip(name@),
            OpenCodeCommand::Unknown { action } => OpenCodeSpec::Unknown(action@),
        }
    }
}

/// `o`, or `d` when absent.
pub open spec fn or_else(o: Option<Seq<char>>, d: Seq<char>) -> Seq<char> {
    match o {
        Some(x) => x,
        None => d,
    }
}

/// The project named by a description: its `project:[..]` tag, else its
/// `name:[..]` tag.
pub open spec fn spec_project_name(desc: Seq<char>) -> Option<Seq<char>> {
    match spec_named_tag(desc, "project"@) {
        Some(p) => Some(p),
        None => spec_named_tag(desc, "name"@),
    }
}

/// The message of a prompt: `message:[..]` (to the last `]`), else `text:[..]`,
/// else the whole description.
pub open spec fn spec_prompt_message(desc: Seq<char>) -> Seq<char> {
    match spec_last_bracket(desc, "message"@) {
        Some(m) => m,
        None => or_else(spec_named_tag(desc, "text"@), desc),
    }
}

/// The refusal for a request that needs a session and names none.
pub open spec fn missing_session() -> (Seq<char>, Seq<char>) {
    ("Missing: session:[session_id]"@, "Missing session"@)
}

/// The refusal for a request that needs a project and names none.
pub open spec fn missing_project() -> (Seq<char>, Seq<char>) {
    ("Missing: project:[name]"@, "Missing project name"@)
}

/// The request `desc` makes, given its lower-cased action.
pub open spec fn spec_opencode_command(desc: Seq<char>, action: Seq<char>) -> Result<
    OpenCodeSpec,
    (Seq<char>, Seq<char>),
> {
    let session = spec_named_tag(desc, "session"@);
    if action == "launch"@ || action == "open"@ {
        Ok(OpenCodeSpec::Open(or_else(spec_named_tag(desc, "project"@), "default"@)))
    } else if action == "shutdown"@ || action == "stop"@ {
        Ok(OpenCodeSpec::Shutdown)
    } else if action == "status"@ {
        Ok(OpenCodeSpec::Status)
    } else if action == "create_session"@ {
        Ok(
            OpenCodeSpec::CreateSession(
                or_else(spec_named_tag(desc, "title"@), "Apis Session"@),
                or_else(spec_named_tag(desc, "project"@), "default"@),
            ),
        )
    } else if action == "prompt"@ {
        match session {
            Some(s) => Ok(
                OpenCodeSpec::Prompt(s, spec_prompt_message(desc), spec_named_tag(desc, "model"@)),
            ),
            None => Err(missing_session()),
        }
    } else if action == "messages"@ {
        match session {
            Some(s) => Ok(OpenCodeSpec::Messages(s)),
            None => Err(missing_session()),
        }
    } else if action == "list_sessions"@ {
        Ok(OpenCodeSpec::ListSessions)
    } else if action == "abort"@ {
        match session {
            Some(s) => Ok(OpenCodeSpec::Abort(s)),
            None => Err(missing_session()),
        }
    } else if action == "create_project"@ || action == "create"@ {
        match spec_project_name(desc) {
            Some(n) => Ok(OpenCodeSpec::CreateProject(n)),
            None => Err(missing_project()),
        }
    } else if action == "list_projects"@ || action == "list"@ {
        Ok(OpenCodeSpec::ListProjects)
    } else if action == "zip"@ {
        match spec_project_name(desc) {
            Some(n) => Ok(OpenCodeSpec::Zip(n)),
            None => Err(missing_project()),
        }
    } else {
        Ok(OpenCodeSpec::Unknown(action))
    }
}

/// The lower-cased action of a description, `status` by default.
pub open spec fn spec_opencode_action(desc: Seq<char>) -> Seq<char> {
    lowercase(or_else(spec_named_tag(desc, "action"@), "status"@))
}

/// Relates a parse result to its specified value.
pub open spec fn opencode_result_is(
    r: Result<OpenCodeCommand, ToolError>,
    s: Result<OpenCodeSpec, (Seq<char>, Seq<char>)>,
) -> bool {
    match s {
        Ok(c) => r matches Ok(x) && x@ == c,
        Err((o, m)) => r matches Err(e) && e.output@ == o && e.reason@ == m,
    }
}

fn named_or(d: &[char], tag: &str, dflt: &str) -> (r: String)
    ensures
        r@ == or_else(spec_named_tag(d@, tag@), dflt@),
{
    let k = chars_of(tag);
    match extract_named_tag_chars(d, k.as_slice()) {
        Some(v) => string_of(v.as_slice()),
        None => crate::text::owned(dflt),
    }
}

fn named(d: &[char], tag: &str) -> (r: Option<String>)
    ensures
        opt_str_is(r, spec_named_tag(d@, tag@)),
{
    let k = chars_of(tag);
    match extract_named_tag_chars(d, k.as_slice()) {
        Some(v) => Some(string_of(v.as_slice())),
        None => None,
    }
}

fn project_name(d: &[char]) -> (r: Option<String>)
    ensures
        opt_str_is(r, spec_project_name(d@)),
{
    match named(d, "project") {
        Some(p) => Some(p),
        None => named(d, "name"),
    }
}

fn prompt_message(d: &[char]) -> (r: String)
    ensures
        r@ == spec_prompt_message(d@),
{
    let k = chars_of("message");
    match extract_last_bracket_chars(d, k.as_slice()) {
        Some(m) => string_of(m.as_slice()),
        None => match named(d, "text") {
            Some(t) => t,
            None => string_of(d),
        },
    }
}

/// The bridge request that `desc` makes, given its lower-cased action.
pub fn opencode_command_for(desc: &str, action: &str) -> (r: Result<OpenCodeCommand, ToolError>)
    ensures
        opencode_result_is(r, spec_opencode_command(desc@, action@)),
{
    let dv = chars_of(desc);
    let d = dv.as_slice();
    if str_eq(action, "launch") || str_eq(action, "open") {
        Ok(OpenCodeCommand::Open { project: named_or(d, "project", "default") })
    } else if str_eq(action, "shutdown") || str_eq(action, "stop") {
        Ok(OpenCodeCommand::Shutdown)
    } else if str_eq(action, "status") {
        Ok(OpenCodeCommand::Status)
    } else if str_eq(action, "create_session") {
        Ok(
            OpenCodeCommand::CreateSession {
                title: named_or(d, "title", "Apis Session"),
                project: named_or(d, "project", "default"),
            },
        )
    } else if str_eq(action, "prompt") {
        match named(d, "session") {
            Some(s) => Ok(
                OpenCodeCommand::Prompt {
                    session: s,
                    message: prompt_message(d),
                    model: named(d, "model"),
                },
            ),
            None => Err(tool_error("Missing: session:[session_id]", "Missing session")),
        }
    } else if str_eq(action, "messages") {
        match named(d, "session") {
            Some(s) => Ok(OpenCodeCommand::Messages { session: s }),
            None => Err(tool_error("Missing: session:[session_id]", "Missing session")),
        }
    } else if str_eq(action, "list_sessions") {
        Ok(OpenCodeCommand::ListSessions)
    } else if str_eq(action, "abort") {
        match named(d, "session") {
            Some(s) => Ok(OpenCodeCommand::Abort { session: s }),
            None => Err(tool_error("Missing: session:[session_id]", "Missing session")),
        }
    } else if str_eq(action, "create_project") || str_eq(action, "create") {
        match project_name(d) {
            Some(n) => Ok(OpenCodeCommand::CreateProject { name: n }),
            None => Err(tool_error("Missing: project:[name]", "Missing project name")),
        }
    } else if str_eq(action, "list_projects") || str_eq(action, "list") {
        Ok(OpenCodeCommand::ListProjects)
    } else if str_eq(action, "zip") {
        match project_name(d) {
            Some(n) => Ok(OpenCodeCommand::Zip { name: n }),
            None => Err(tool_error("Missing: project:[name]", "Missing project name")),
        }
    } else {
        Ok(OpenCodeCommand::Unknown { action: crate::text::owned(action) })
    }
}

/// The bridge request that `desc` makes; its action is the `action:[..]` tag,
/// `status` by default, lower-cased.
pub fn parse_opencode_command(desc: &str) -> (r: Result<OpenCodeCommand, ToolError>)
    ensures
        opencode_result_is(r, spec_opencode_command(desc@, spec_opencode_action(desc@))),
{
    let dv = chars_of(desc);
    let a = named_or(dv.as_slice(), "action", "status");
    let action = to_lowercase(a.as_str());
    opencode_command_for(desc, action.as_str())
}

/// One part of a reply from the coding agent: its `type` and `text` fields,
/// where they are strings.
pub struct ResponsePart {
    pub kind: Option<String>,
    pub text: Option<String>,
}

/// The index of the first part whose type is `text`.
pub open spec fn first_text_part(parts: Seq<ResponsePart>) -> Option<int>
    decreases parts.len(),
{
    if parts.len() == 0 {
        None
    } else {
        match first_text_part(parts.drop_last()) {
            Some(i) => Some(i),
            None => if parts.last().kind matches Some(k) && k@ == "text"@ {
                Some(parts.len() - 1)
            } else {
                None
            },
        }
    }
}

/// The reply text shown to the planner: the text of the first part of type
/// `text`, or a placeholder when there is none or it has no text.
pub open spec fn spec_reply_text(parts: Option<Seq<ResponsePart>>) -> Seq<char> {
    let body = match parts {
        Some(ps) => match first_text_part(ps) {
            Some(i) => match ps[i].text {
                Some(t) => t@,
                None => "[no text response]"@,
            },
            None => "[no text response]"@,
        },
        None => "[no text response]"@,
    };
    "--- OPENCODE RESPONSE ---\n"@ + body
}

/// The reply text for the parts of a reply (`None` when the reply has no list
/// of parts).
pub fn reply_text(parts: Option<&Vec<ResponsePart>>) -> (r: String)
    ensures
        r@ == spec_reply_text(
            match parts {
                Some(p) => Some(p@),
                None => None,
            },
        ),
{
    let mut out: Vec<char> = Vec::new();
    append_str(&mut out, "--- OPENCODE RESPONSE ---\n");
    let ghost head = out@;
    let mut found: Option<usize> = None;
    match parts {
        Some(ps) => {
            let mut i: usize = 0;
            while i < ps.len()
                invariant
                    i <= ps@.len(),
                    match found {
                        Some(k) => k < i && first_text_part(ps@.subrange(0, i as int)) == Some(
                            k as int,
                        ),
                        None => first_text_part(ps@.subrange(0, i as int)) is None,
                    },
                decreases ps.len() - i,
            {
                assert(ps@.subrange(0, i + 1).drop_last() =~= ps@.subrange(0, i as int));
                if found.is_none() {
                    let is_text = match &ps[i].kind {
                        Some(k) => str_eq(k.as_str(), "text"),
                        None => false,
                    };
                    if is_text {
                        found = Some(i);
                    }
                }
                i = i + 1;
            }
            assert(ps@.subrange(0, ps@.len() as int) =~= ps@);
        },
        None => {},
    }
    let body: String = match (parts, found) {
        (Some(ps), Some(k)) => match &ps[k].text {
            Some(t) => t.clone(),
            None => crate::text::owned("[no text response]"),
        },
        _ => crate::text::owned("[no text response]"),
    };
    let b = chars_of(body.as_str());
    append_chars(&mut out, b.as_slice());
    string_of(out.as_slice())
}

/// A byte count in the largest unit it exceeds (GB, MB or KB, with one
/// decimal, ties to even), or in bytes.  The units are powers of two, so each
/// quotient of a count below 2^53 is an exact binary fraction, rounded as
/// float formatting rounds it.
pub open spec fn spec_size_human(n: nat) -> Seq<char> {
    if n > 1073741824 {
        one_decimal(n, 1073741824) + " GB"@
    } else if n > 1048576 {
        one_decimal(n, 1048576) + " MB"@
    } else if n > 1024 {
        one_decimal(n, 1024) + " KB"@
    } else {
        decimal(n) + " B"@
    }
}

/// A byte count for people to read.
pub fn size_human(n: u64) -> (r: String)
    ensures
        r@ == spec_size_human(n as nat),
{
    let mut out = if n > 1073741824 {
        one_decimal_chars(n, 1073741824)
    } else if n > 1048576 {
        one_decimal_chars(n, 1048576)
    } else if n > 1024 {
        one_decimal_chars(n, 1024)
    } else {
        decimal_chars(n)
    };
    if n > 1073741824 {
        append_str(&mut out, " GB");
    } else if n > 1048576 {
        append_str(&mut out, " MB");
    } else if n > 1024 {
        append_str(&mut out, " KB");
    } else {
        append_str(&mut out, " B");
    }
    string_of(out.as_slice())
}


/// The port the coding-agent server listens on.
pub const OPENCODE_PORT: u16 = 4096;

/// The address the coding-agent server listens on.
pub const OPENCODE_HOST: &'static str = "127.0.0.1";

/// The model server used when none is configured.
pub const DEFAULT_OLLAMA_URL: &'static str = "http://localhost:11434";

/// The JSON text of the string `s` (quoted and escaped).
pub uninterp spec fn json_string_text(s: Seq<char>) -> Seq<char>;

/// Writes `s` as a JSON string with `serde_json::to_string`.  Serialising a
/// string does not fail; should it, the text is empty, which the contract
/// does not cover.
#[verifier::external_body]
fn json_string(s: &str) -> (r: String)
    ensures
        r@ == json_string_text(s@),
{
    match serde_json::to_string(s) {
        Ok(text) => text,
        Err(_) => String::new(),
    }
}

/// The configuration text before the model server's address.
pub const CONFIG_HEAD: &'static str = "{\"$schema\":\"https://opencode.ai/config.json\",\"enabled_providers\":[\"ollama\"],\"permission\":{\"bash\":\"allow\",\"edit\":\"allow\",\"skill\":\"allow\",\"todowrite\":\"allow\",\"webfetch\":\"allow\"},\"provider\":{\"ollama\":{\"models\":{\"llama3.1:8b\":{\"name\":\"Llama 3.1 8B\"},\"qwen3.5:35b\":{\"name\":\"Qwen3.5 35B (A3B MoE)\"},\"qwen3:14b\":{\"name\":\"Qwen3 14B\"},\"qwen3:32b\":{\"name\":\"Qwen3 32B\"},\"qwen3:8b\":{\"name\":\"Qwen3 8B\"}},\"name\":\"Ollama (HIVE Local)\",\"npm\":\"@ai-sdk/openai-compatible\",\"options\":{\"baseURL\":";

/// The configuration text after the model server's address: the server
/// listens on 127.0.0.1, port 4096.
pub const CONFIG_TAIL: &'static str = "}}},\"server\":{\"hostname\":\"127.0.0.1\",\"port\":4096}}";

/// The coding agent's configuration, as compact JSON with its keys in
/// sorted order, around the JSON text of the model server's address.
pub fn opencode_config_with(quoted_base_url: &str) -> (r: String)
    ensures
        r@ == CONFIG_HEAD@ + quoted_base_url@ + CONFIG_TAIL@,
{
    let mut o = chars_of(CONFIG_HEAD);
    append_str(&mut o, quoted_base_url);
    append_str(&mut o, CONFIG_TAIL);
    string_of(o.as_slice())
}

/// The coding agent's configuration for the model server at `ollama_url`:
/// its models are reached at that address followed by `/v1`.
pub fn opencode_config(ollama_url: &str) -> (r: String)
    ensures
        r@ == CONFIG_HEAD@ + json_string_text(ollama_url@ + "/v1"@) + CONFIG_TAIL@,
{
    let mut u = chars_of(ollama_url);
    append_str(&mut u, "/v1");
    let url = string_of(u.as_slice());
    let quoted = json_string(url.as_str());
    opencode_config_with(quoted.as_str())
}

} // verus!
