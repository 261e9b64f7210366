//! The tool forge: the registry of scripts the agent has written for itself,
//! and the parsing of its tool's requests.  Script files, syntax checks and
//! runs are done outside this crate; the registry decides what is allowed and
//! keeps its record.
use vstd::prelude::*;
use crate::containment::{lowercase, to_lowercase};
use crate::fmt::{decimal, decimal_chars};
use crate::models::{tool_error, ToolError};
use crate::tags::{extract_last_bracket_chars, extract_named_tag_chars, opt_str_is, spec_last_bracket, spec_named_tag};
use crate::text::{
    append_chars, append_str, chars_of, contains, contains_exec, find, find_exec, is_white,
    is_white_exec, owned, slice_copy, str_eq, string_of, tail, trim, trim_exec,
};

verus! {

// ───────────────────────── tool records ─────────────────────────

/// A script the agent forged, as the registry records it.
pub struct ForgedToolDef {
    pub name: String,
    pub description: String,
    /// `python` or `bash`.
    pub language: String,
    /// The script's file name inside the tools directory.
    pub script_filename: String,
    pub timeout_secs: u64,
    /// When the script was created or last edited, in milliseconds since the
    /// Unix epoch.
    pub created_at_ms: u64,
    pub created_by: String,
    pub version: u32,
    pub enabled: bool,
}

/// The abstract value of a [`ForgedToolDef`].
pub struct ForgedSpec {
    pub name: Seq<char>,
    pub description: Seq<char>,
    pub language: Seq<char>,
    pub script_filename: Seq<char>,
    pub timeout_secs: nat,
    pub created_at_ms: nat,
    pub created_by: Seq<char>,
    pub version: nat,
    pub enabled: bool,
}

impl View for ForgedToolDef {
    type V = ForgedSpec;

    open spec fn view(&self) -> ForgedSpec {
        ForgedSpec {
            name: self.name@,
            description: self.description@,
            language: self.language@,
            script_filename: self.script_filename@,
            timeout_secs: self.timeout_secs as nat,
            created_at_ms: self.created_at_ms as nat,
            created_by: self.created_by@,
            version: self.version as nat,
            enabled: self.enabled,
        }
    }
}

impl ForgedToolDef {
    /// A copy of this record.
    pub fn duplicate(&self) -> (r: ForgedToolDef)
        ensures
            r@ == self@,
    {
        ForgedToolDef {
            name: self.name.clone(),
            description: self.description.clone(),
            language: self.language.clone(),
            script_filename: self.script_filename.clone(),
            timeout_secs: self.timeout_secs,
            created_at_ms: self.created_at_ms,
            created_by: self.created_by.clone(),
            version: self.version,
            enabled: self.enabled,
        }
    }
}

pub open spec fn tools_view(v: Seq<ForgedToolDef>) -> Seq<ForgedSpec> {
    v.map_values(|t: ForgedToolDef| t@)
}

/// The position of the first tool named `name`.
pub open spec fn first_named(s: Seq<ForgedSpec>, name: Seq<char>) -> Option<int>
    decreases s.len(),
{
    if s.len() == 0 {
        None
    } else {
        match first_named(s.drop_last(), name) {
            Some(i) => Some(i),
            None => if s.last().name == name {
                Some(s.len() - 1)
            } else {
                None
            },
        }
    }
}

/// `first_named` finds the first tool of that name, and only a tool of that
/// name.
pub proof fn lemma_first_named(s: Seq<ForgedSpec>, name: Seq<char>)
    ensures
        match first_named(s, name) {
            Some(k) => 0 <= k < s.len() && s[k].name == name && forall|j: int|
                0 <= j < k ==> s[j].name != name,
            None => forall|j: int| 0 <= j < s.len() ==> s[j].name != name,
        },
    decreases s.len(),
{
    if s.len() > 0 {
        lemma_first_named(s.drop_last(), name);
        assert forall|j: int| 0 <= j < s.len() - 1 implies s.drop_last()[j] == s[j] by {}
    }
}

/// `s` without the tools named `name`.
pub open spec fn without(s: Seq<ForgedSpec>, name: Seq<char>) -> Seq<ForgedSpec>
    decreases s.len(),
{
    if s.len() == 0 {
        s
    } else {
        let p = without(s.drop_last(), name);
        if s.last().name == name {
            p
        } else {
            p.push(s.last())
        }
    }
}

/// The enabled tools of `s`, in order.
pub open spec fn enabled_only(s: Seq<ForgedSpec>) -> Seq<ForgedSpec>
    decreases s.len(),
{
    if s.len() == 0 {
        s
    } else {
        let p = enabled_only(s.drop_last());
        if s.last().enabled {
            p.push(s.last())
        } else {
            p
        }
    }
}

// ───────────────────────── validation ─────────────────────────

/// A tool name is accepted when it is non-empty and holds no `..`, `/` or
/// space.
pub open spec fn spec_valid_tool_name(name: Seq<char>) -> bool {
    name.len() > 0 && !contains(name, ".."@) && !contains(name, "/"@) && !contains(name, " "@)
}

/// The languages a forged tool may be written in.
pub open spec fn spec_valid_language(language: Seq<char>) -> bool {
    language == "python"@ || language == "bash"@
}

pub const INVALID_NAME_TEXT: &'static str = "Invalid tool name. Must be alphanumeric with underscores, no spaces or path chars.";

pub const INVALID_LANGUAGE_TEXT: &'static str = "Language must be 'python' or 'bash'.";

/// Why creating `name` in `language` is refused, if it is.
pub open spec fn spec_create_refusal(s: Seq<ForgedSpec>, name: Seq<char>, language: Seq<char>) -> Option<Seq<char>> {
    if !spec_valid_tool_name(name) {
        Some(INVALID_NAME_TEXT@)
    } else if !spec_valid_language(language) {
        Some(INVALID_LANGUAGE_TEXT@)
    } else if first_named(s, name) is Some {
        Some("Tool '"@ + name + "' already exists. Use edit to update it."@)
    } else {
        None
    }
}

/// The script file of a tool: its name with `.py` for Python, `.sh` otherwise.
pub open spec fn spec_script_filename(name: Seq<char>, language: Seq<char>) -> Seq<char> {
    name + if language == "python"@ { ".py"@ } else { ".sh"@ }
}

/// The refusal for a tool name the registry does not hold.
pub open spec fn spec_not_found(name: Seq<char>) -> Seq<char> {
    "Tool '"@ + name + "' not found."@
}

/// The refusal for a tool name the registry does not hold.
pub fn not_found_text(name: &str) -> (r: String)
    ensures
        r@ == spec_not_found(name@),
{
    let mut out: Vec<char> = Vec::new();
    append_str(&mut out, "Tool '");
    append_str(&mut out, name);
    append_str(&mut out, "' not found.");
    string_of(out.as_slice())
}

/// Whether `name` may name a forged tool.
pub fn valid_tool_name(name: &str) -> (r: bool)
    ensures
        r == spec_valid_tool_name(name@),
{
    let n = chars_of(name);
    let dd = chars_of("..");
    let sl = chars_of("/");
    let sp = chars_of(" ");
    n.len() > 0 && !contains_exec(n.as_slice(), dd.as_slice()) && !contains_exec(
        n.as_slice(),
        sl.as_slice(),
    ) && !contains_exec(n.as_slice(), sp.as_slice())
}

// ───────────────────────── the registry ─────────────────────────

/// The forge's record of its tools, in creation order.
pub struct ForgeRegistry {
    tools: Vec<ForgedToolDef>,
}

impl View for ForgeRegistry {
    type V = Seq<ForgedSpec>;

    closed spec fn view(&self) -> Seq<ForgedSpec> {
        tools_view(self.tools@)
    }
}

/// The listing line of one tool.
pub open spec fn tool_line(t: ForgedSpec) -> Seq<char> {
    (if t.enabled { "✅"@ } else { "⛔"@ }) + " "@ + t.name + " ["@ + t.language + "] v"@ + decimal(
        t.version,
    ) + " — "@ + t.description + "\n"@
}

/// The listing lines of the tools of `s`.
pub open spec fn tool_lines(s: Seq<ForgedSpec>) -> Seq<char>
    decreases s.len(),
{
    if s.len() == 0 {
        Seq::empty()
    } else {
        tool_lines(s.drop_last()) + tool_line(s.last())
    }
}

/// The listing of the registry.
pub open spec fn spec_list_text(s: Seq<ForgedSpec>) -> Seq<char> {
    if s.len() == 0 {
        "No forged tools."@
    } else {
        "FORGED TOOLS:\n"@ + tool_lines(s)
    }
}

impl ForgeRegistry {
    /// An empty registry.
    pub fn new() -> (r: ForgeRegistry)
        ensures
            r@ == Seq::<ForgedSpec>::empty(),
    {
        let r = ForgeRegistry { tools: Vec::new() };
        assert(r@ =~= Seq::<ForgedSpec>::empty());
        r
    }

    /// A registry holding `tools` as loaded from its file.
    pub fn from_tools(tools: Vec<ForgedToolDef>) -> (r: ForgeRegistry)
        ensures
            r@ == tools_view(tools@),
    {
        ForgeRegistry { tools }
    }

    /// The records, in order (for saving).
    pub fn tools(&self) -> (r: &Vec<ForgedToolDef>)
        ensures
            tools_view(r@) == self@,
    {
        &self.tools
    }

    fn position(&self, name: &str) -> (r: Option<usize>)
        ensures
            match first_named(self@, name@) {
                Some(k) => r matches Some(p) && p as int == k,
                None => r is None,
            },
            r matches Some(k) ==> k < self@.len(),
    {
        proof {
            lemma_first_named(self@, name@);
        }
        let mut i: usize = 0;
        while i < self.tools.len()
            invariant
                i <= self.tools@.len(),
                self@.len() == self.tools@.len(),
                first_named(self@.subrange(0, i as int), name@) is None,
            decreases self.tools.len() - i,
        {
            assert(self@.subrange(0, i + 1).drop_last() =~= self@.subrange(0, i as int));
            assert(self@[i as int] == self.tools@[i as int]@);
            if str_eq(self.tools[i].name.as_str(), name) {
                assert(first_named(self@.subrange(0, i + 1), name@) == Some(i as int));
                proof {
                    lemma_prefix_first(self@, name@, i as int + 1);
                }
                return Some(i);
            }
            i = i + 1;
        }
        assert(self@.subrange(0, i as int) =~= self@);
        None
    }

    /// The tool named `name`.
    pub fn get_tool(&self, name: &str) -> (r: Option<ForgedToolDef>)
        ensures
            match first_named(self@, name@) {
                Some(k) => r matches Some(t) && t@ == self@[k],
                None => r is None,
            },
    {
        match self.position(name) {
            Some(k) => {
                proof {
                    lemma_first_named(self@, name@);
                }
                assert(self@[k as int] == self.tools@[k as int]@);
                Some(self.tools[k].duplicate())
            },
            None => None,
        }
    }

    /// The enabled tools, in order (those hot-loaded into the planner's registry).
    pub fn get_enabled_tools(&self) -> (r: Vec<ForgedToolDef>)
        ensures
            tools_view(r@) == enabled_only(self@),
    {
        let mut out: Vec<ForgedToolDef> = Vec::new();
        let mut i: usize = 0;
        while i < self.tools.len()
            invariant
                i <= self.tools@.len(),
                self@.len() == self.tools@.len(),
                tools_view(out@) == enabled_only(self@.subrange(0, i as int)),
            decreases self.tools.len() - i,
        {
            assert(self@.subrange(0, i + 1).drop_last() =~= self@.subrange(0, i as int));
            assert(self@[i as int] == self.tools@[i as int]@);
            let ghost before = out@;
            if self.tools[i].enabled {
                out.push(self.tools[i].duplicate());
                assert(tools_view(out@) =~= tools_view(before).push(self@[i as int]));
            }
            i = i + 1;
        }
        assert(self@.subrange(0, i as int) =~= self@);
        out
    }

    /// Check a creation request; on success, the script file name to use.
    pub fn plan_create(&self, name: &str, language: &str) -> (r: Result<String, String>)
        ensures
            match spec_create_refusal(self@, name@, language@) {
                Some(e) => r matches Err(x) && x@ == e,
                None => r matches Ok(f) && f@ == spec_script_filename(name@, language@),
            },
    {
        if !valid_tool_name(name) {
            return Err(owned(INVALID_NAME_TEXT));
        }
        if !(str_eq(language, "python") || str_eq(language, "bash")) {
            return Err(owned(INVALID_LANGUAGE_TEXT));
        }
        if self.position(name).is_some() {
            let mut out: Vec<char> = Vec::new();
            append_str(&mut out, "Tool '");
            append_str(&mut out, name);
            append_str(&mut out, "' already exists. Use edit to update it.");
            return Err(string_of(out.as_slice()));
        }
        let mut f: Vec<char> = chars_of(name);
        if str_eq(language, "python") {
            append_str(&mut f, ".py");
        } else {
            append_str(&mut f, ".sh");
        }
        Ok(string_of(f.as_slice()))
    }

    /// Record a newly created tool: version 1, enabled, with a 60 s timeout.
    pub fn insert_tool(
        &mut self,
        name: String,
        description: String,
        language: String,
        script_filename: String,
        created_by: String,
        created_at_ms: u64,
    ) -> (msg: String)
        requires
            first_named(old(self)@, name@) is None,
        ensures
            final(self)@ == old(self)@.push(
                ForgedSpec {
                    name: name@,
                    description: description@,
                    language: language@,
                    script_filename: script_filename@,
                    timeout_secs: 60,
                    created_at_ms: created_at_ms as nat,
                    created_by: created_by@,
                    version: 1,
                    enabled: true,
                },
            ),
            msg@ == "✅ Forged tool '"@ + name@ + "' created and enabled."@,
    {
        let mut out: Vec<char> = Vec::new();
        append_str(&mut out, "✅ Forged tool '");
        append_str(&mut out, name.as_str());
        append_str(&mut out, "' created and enabled.");
        let def = ForgedToolDef {
            name,
            description,
            language,
            script_filename,
            timeout_secs: 60,
            created_at_ms,
            created_by,
            version: 1,
            enabled: true,
        };
        let ghost before = self.tools@;
        self.tools.push(def);
        assert(tools_view(self.tools@) =~= tools_view(before).push(def@));
        string_of(out.as_slice())
    }

    /// Record an edit of the tool named `name`: its version goes up by one and
    /// its time stamp becomes `now_ms`.
    pub fn bump_version(&mut self, name: &str, now_ms: u64) -> (r: Result<String, String>)
        requires
            first_named(old(self)@, name@) matches Some(k) ==> old(self)@[k].version < u32::MAX,
        ensures
            match first_named(old(self)@, name@) {
                Some(k) => {
                    let t = old(self)@[k];
                    &&& final(self)@ == old(self)@.update(
                        k,
                        ForgedSpec { version: t.version + 1, created_at_ms: now_ms as nat, ..t },
                    )
                    &&& r matches Ok(m) && m@ == "✅ Tool '"@ + name@ + "' updated to v"@ + decimal(
                        t.version + 1,
                    ) + "."@
                },
                None => final(self)@ == old(self)@ && (r matches Err(e) && e@ == spec_not_found(
                    name@,
                )),
            },
    {
        match self.position(name) {
            Some(k) => {
                proof {
                    lemma_first_named(old(self)@, name@);
                }
                assert(self@[k as int] == self.tools@[k as int]@);
                let mut t = self.tools[k].duplicate();
                t.version = t.version + 1;
                t.created_at_ms = now_ms;
                let v = t.version;
                let ghost before = self.tools@;
                self.tools.set(k, t);
                assert(tools_view(self.tools@) =~= tools_view(before).update(k as int, t@));
                let mut out: Vec<char> = Vec::new();
                append_str(&mut out, "✅ Tool '");
                append_str(&mut out, name);
                append_str(&mut out, "' updated to v");
                let d = decimal_chars(v as u64);
                append_chars(&mut out, d.as_slice());
                append_str(&mut out, ".");
                Ok(string_of(out.as_slice()))
            },
            None => Err(not_found_text(name)),
        }
    }

    /// Enable or disable the tool named `name`.
    pub fn set_enabled(&mut self, name: &str, enabled: bool) -> (r: Result<String, String>)
        ensures
            match first_named(old(self)@, name@) {
                Some(k) => {
                    &&& final(self)@ == old(self)@.update(k, ForgedSpec { enabled, ..old(self)@[k] })
                    &&& r matches Ok(m) && m@ == "✅ Tool '"@ + name@ + "' "@ + (if enabled {
                        "enabled"@
                    } else {
                        "disabled"@
                    }) + "."@
                },
                None => final(self)@ == old(self)@ && (r matches Err(e) && e@ == spec_not_found(
                    name@,
                )),
            },
    {
        match self.position(name) {
            Some(k) => {
                assert(self@[k as int] == self.tools@[k as int]@);
                let mut t = self.tools[k].duplicate();
                t.enabled = enabled;
                let ghost before = self.tools@;
                self.tools.set(k, t);
                assert(tools_view(self.tools@) =~= tools_view(before).update(k as int, t@));
                let mut out: Vec<char> = Vec::new();
                append_str(&mut out, "✅ Tool '");
                append_str(&mut out, name);
                append_str(&mut out, "' ");
                if enabled {
                    append_str(&mut out, "enabled");
                } else {
                    append_str(&mut out, "disabled");
                }
                append_str(&mut out, ".");
                Ok(string_of(out.as_slice()))
            },
            None => Err(not_found_text(name)),
        }
    }

    /// Remove every tool named `name`; on success, the message and the script
    /// file of the first such tool (to be deleted).
    pub fn delete_tool(&mut self, name: &str) -> (r: Result<(String, String), String>)
        ensures
            match first_named(old(self)@, name@) {
                Some(k) => {
                    &&& final(self)@ == without(old(self)@, name@)
                    &&& r matches Ok((m, f)) && m@ == "🗑️ Tool '"@ + name@ + "' deleted."@
                        && f@ == old(self)@[k].script_filename
                },
                None => final(self)@ == old(self)@ && (r matches Err(e) && e@ == spec_not_found(
                    name@,
                )),
            },
    {
        let k = match self.position(name) {
            Some(k) => k,
            None => return Err(not_found_text(name)),
        };
        assert(self@[k as int] == self.tools@[k as int]@);
        let script = self.tools[k].script_filename.clone();
        let mut kept: Vec<ForgedToolDef> = Vec::new();
        let mut i: usize = 0;
        let ghost s0 = self@;
        while i < self.tools.len()
            invariant
                i <= self.tools@.len(),
                self@ == s0,
                self@.len() == self.tools@.len(),
                tools_view(kept@) == without(s0.subrange(0, i as int), name@),
            decreases self.tools.len() - i,
        {
            assert(s0.subrange(0, i + 1).drop_last() =~= s0.subrange(0, i as int));
            assert(s0[i as int] == self.tools@[i as int]@);
            let ghost before = kept@;
            if !str_eq(self.tools[i].name.as_str(), name) {
                kept.push(self.tools[i].duplicate());
                assert(tools_view(kept@) =~= tools_view(before).push(s0[i as int]));
            }
            i = i + 1;
        }
        assert(s0.subrange(0, i as int) =~= s0);
        self.tools = kept;
        let mut out: Vec<char> = Vec::new();
        append_str(&mut out, "🗑️ Tool '");
        append_str(&mut out, name);
        append_str(&mut out, "' deleted.");
        Ok((string_of(out.as_slice()), script))
    }

    /// The listing of all tools: a status mark, name, language, version and
    /// description per line.
    pub fn list_tools(&self) -> (r: String)
        ensures
            r@ == spec_list_text(self@),
    {
        if self.tools.len() == 0 {
            return owned("No forged tools.");
        }
        let mut out: Vec<char> = Vec::new();
        append_str(&mut out, "FORGED TOOLS:\n");
        let ghost head = out@;
        let mut i: usize = 0;
        while i < self.tools.len()
            invariant
                i <= self.tools@.len(),
                self@.len() == self.tools@.len(),
                out@ == head + tool_lines(self@.subrange(0, i as int)),
            decreases self.tools.len() - i,
        {
            assert(self@.subrange(0, i + 1).drop_last() =~= self@.subrange(0, i as int));
            assert(self@[i as int] == self.tools@[i as int]@);
            let t = &self.tools[i];
            let ghost before = out@;
            if t.enabled {
                append_str(&mut out, "✅");
            } else {
                append_str(&mut out, "⛔");
            }
            append_str(&mut out, " ");
            append_str(&mut out, t.name.as_str());
            append_str(&mut out, " [");
            append_str(&mut out, t.language.as_str());
            append_str(&mut out, "] v");
            let d = decimal_chars(t.version as u64);
            append_chars(&mut out, d.as_slice());
            append_str(&mut out, " — ");
            append_str(&mut out, t.description.as_str());
            append_str(&mut out, "\n");
            assert(out@ =~= before + tool_line(t@));
            i = i + 1;
        }
        assert(self@.subrange(0, i as int) =~= self@);
        string_of(out.as_slice())
    }
}

/// A first match found in a prefix is the first match of the whole sequence.
pub proof fn lemma_prefix_first(s: Seq<ForgedSpec>, name: Seq<char>, n: int)
    requires
        0 <= n <= s.len(),
        first_named(s.subrange(0, n), name) is Some,
    ensures
        first_named(s, name) == first_named(s.subrange(0, n), name),
    decreases s.len() - n,
{
    if n < s.len() {
        assert(s.subrange(0, n + 1).drop_last() =~= s.subrange(0, n));
        lemma_prefix_first(s, name, n + 1);
    } else {
        assert(s.subrange(0, n) =~= s);
    }
}

// ───────────────────────── laws of the registry ─────────────────────────

/// A tool recorded under a new name is what a lookup of that name finds, and a
/// second creation under that name is refused.
pub proof fn law_created_tool_is_found(s: Seq<ForgedSpec>, t: ForgedSpec, language: Seq<char>)
    requires
        first_named(s, t.name) is None,
    ensures
        first_named(s.push(t), t.name) == Some(s.len() as int),
        spec_create_refusal(s.push(t), t.name, language) is Some,
{
    assert(s.push(t).drop_last() =~= s);
}

/// Recording a tool under a new name changes no lookup of another name.
pub proof fn law_create_keeps_others(s: Seq<ForgedSpec>, t: ForgedSpec, name: Seq<char>)
    requires
        name != t.name,
    ensures
        first_named(s.push(t), name) == first_named(s, name),
{
    assert(s.push(t).drop_last() =~= s);
}

/// Replacing the record found for a name by one of the same name (an enable,
/// disable or version bump) makes a lookup of any name find the same position,
/// and a lookup of that name the new record.
pub proof fn law_update_in_place(s: Seq<ForgedSpec>, k: int, t: ForgedSpec, name: Seq<char>)
    requires
        0 <= k < s.len(),
        t.name == s[k].name,
    ensures
        first_named(s.update(k, t), name) == first_named(s, name),
        s.update(k, t)[k] == t,
    decreases s.len(),
{
    if k < s.len() - 1 {
        assert(s.update(k, t).drop_last() =~= s.drop_last().update(k, t));
        law_update_in_place(s.drop_last(), k, t, name);
    } else {
        assert(s.update(k, t).drop_last() =~= s.drop_last());
    }
}

/// After a deletion no tool of that name is left, and every tool of another
/// name is kept, in order.
pub proof fn law_deleted_tool_is_gone(s: Seq<ForgedSpec>, name: Seq<char>)
    ensures
        first_named(without(s, name), name) is None,
        forall|i: int| 0 <= i < without(s, name).len() ==> #[trigger] without(s, name)[i].name != name,
    decreases s.len(),
{
    if s.len() > 0 {
        law_deleted_tool_is_gone(s.drop_last(), name);
        let p = without(s.drop_last(), name);
        lemma_first_named(without(s, name), name);
        if s.last().name != name {
            assert(p.push(s.last()).drop_last() =~= p);
        }
    }
}

/// Only enabled tools are handed out for loading, and a disabled tool is never
/// among them.
pub proof fn law_enabled_only(s: Seq<ForgedSpec>)
    ensures
        forall|i: int| 0 <= i < enabled_only(s).len() ==> #[trigger] enabled_only(s)[i].enabled,
        enabled_only(s).len() <= s.len(),
    decreases s.len(),
{
    if s.len() > 0 {
        law_enabled_only(s.drop_last());
    }
}

// ───────────────────────── runs ─────────────────────────

/// `str::to_uppercase`: the upper-case mapping of `s` under the Unicode
/// `Uppercase` property.  Its result is left to the name `uppercase`.
pub uninterp spec fn uppercase(s: Seq<char>) -> Seq<char>;

/// `str::to_uppercase`.  The contract ties the result to `uppercase` of the
/// argument and states nothing else of it.
#[verifier::external_body]
fn to_uppercase(s: &str) -> (r: String)
    ensures
        r@ == uppercase(s@),
{
    s.to_uppercase()
}

/// How a run of a forged tool's script ended.
pub enum ForgedRun {
    /// The script ran to the end; `status` is its exit status as text.
    Exited { success: bool, status: String, stdout: String, stderr: String },
    /// It could not be started or waited for; the error's text.
    Failed { message: String },
    /// It ran past the tool's time limit and was killed.
    TimedOut,
}

/// The answer to a run of the tool `name` (time limit `timeout_secs`): its
/// text, and the reason the run counts as failed (`None` for a success).
pub open spec fn spec_forged_report(name: Seq<char>, timeout_secs: nat, r: ForgedRun) -> (Seq<char>, Option<Seq<char>>) {
    match r {
        ForgedRun::Exited { success, status, stdout, stderr } => if success {
            (
                "--- "@ + uppercase(name) + " OUTPUT ---\n"@ + stdout@ + if stderr@.len() == 0 {
                    Seq::empty()
                } else {
                    "\n[stderr] "@ + stderr@
                },
                None,
            )
        } else {
            (
                "--- "@ + uppercase(name) + " FAILED (exit: "@ + status@ + ") ---\n"@ + stdout@ + "\n"@
                    + stderr@,
                Some("Non-zero exit"@),
            )
        },
        ForgedRun::Failed { message } => ("Failed to execute forged tool: "@ + message@, Some(message@)),
        ForgedRun::TimedOut => (
            "Forged tool '"@ + name + "' timed out after "@ + decimal(timeout_secs) + "s. Process killed."@,
            Some("Timeout"@),
        ),
    }
}

/// The answer to a run of the forged tool `name`.
pub fn forged_run_report(name: &str, timeout_secs: u64, r: &ForgedRun) -> (out: (String, Option<String>))
    ensures
        out.0@ == spec_forged_report(name@, timeout_secs as nat, *r).0,
        opt_str_is(out.1, spec_forged_report(name@, timeout_secs as nat, *r).1),
{
    let mut o: Vec<char> = Vec::new();
    match r {
        ForgedRun::Exited { success, status, stdout, stderr } => {
            let upper = to_uppercase(name);
            append_str(&mut o, "--- ");
            append_str(&mut o, upper.as_str());
            if *success {
                append_str(&mut o, " OUTPUT ---\n");
                append_str(&mut o, stdout.as_str());
                if stderr.as_str().unicode_len() > 0 {
                    append_str(&mut o, "\n[stderr] ");
                    append_str(&mut o, stderr.as_str());
                }
                (string_of(o.as_slice()), None)
            } else {
                append_str(&mut o, " FAILED (exit: ");
                append_str(&mut o, status.as_str());
                append_str(&mut o, ") ---\n");
                append_str(&mut o, stdout.as_str());
                append_str(&mut o, "\n");
                append_str(&mut o, stderr.as_str());
                (string_of(o.as_slice()), Some(owned("Non-zero exit")))
            }
        },
        ForgedRun::Failed { message } => {
            append_str(&mut o, "Failed to execute forged tool: ");
            append_str(&mut o, message.as_str());
            (string_of(o.as_slice()), Some(message.clone()))
        },
        ForgedRun::TimedOut => {
            append_str(&mut o, "Forged tool '");
            append_str(&mut o, name);
            append_str(&mut o, "' timed out after ");
            let d = decimal_chars(timeout_secs);
            append_chars(&mut o, d.as_slice());
            append_str(&mut o, "s. Process killed.");
            (string_of(o.as_slice()), Some(owned("Timeout")))
        },
    }
}

/// The answer to an action the forge does not offer.
pub fn unknown_forge_action_text(action: &str) -> (r: String)
    ensures
        r@ == "Unknown action '"@ + action@ + "'. Available: create, test, edit, enable, disable, delete, list"@,
{
    let mut o: Vec<char> = Vec::new();
    append_str(&mut o, "Unknown action '");
    append_str(&mut o, action);
    append_str(&mut o, "'. Available: create, test, edit, enable, disable, delete, list");
    string_of(o.as_slice())
}

/// The program that runs a script and checks its syntax: `python3` for
/// Python, else `bash`.
pub fn interpreter(language: &str) -> (r: &'static str)
    ensures
        r@ == if language@ == "python"@ { "python3"@ } else { "bash"@ },
{
    if str_eq(language, "python") {
        "python3"
    } else {
        "bash"
    }
}

/// The checker's arguments before the file's path: `-m py_compile` for
/// Python, else `-n`.
pub fn syntax_checker_flags(language: &str) -> (r: Vec<&'static str>)
    ensures
        language@ == "python"@ ==> r@.len() == 2 && r@[0]@ == "-m"@ && r@[1]@ == "py_compile"@,
        language@ != "python"@ ==> r@.len() == 1 && r@[0]@ == "-n"@,
{
    if str_eq(language, "python") {
        vec!["-m", "py_compile"]
    } else {
        vec!["-n"]
    }
}

/// How a syntax check of a script went.
pub enum SyntaxCheck {
    /// The checker accepted the script; what it printed.
    Passed { stdout: String, stderr: String },
    /// The checker refused the script; its error output.
    Refused { stderr: String },
    /// The checker could not be run.
    CheckerFailed { message: String },
}

/// The refusal of a new script whose syntax check failed.
pub open spec fn spec_create_syntax_error(language: Seq<char>, stderr: Seq<char>) -> Seq<char> {
    "Syntax Error in "@ + uppercase(language) + " code:\n"@ + stderr
}

/// The refusal of a new script whose syntax check failed.
pub fn create_syntax_error(language: &str, stderr: &str) -> (r: String)
    ensures
        r@ == spec_create_syntax_error(language@, stderr@),
{
    let mut o: Vec<char> = Vec::new();
    append_str(&mut o, "Syntax Error in ");
    let upper = to_uppercase(language);
    append_str(&mut o, upper.as_str());
    append_str(&mut o, " code:\n");
    append_str(&mut o, stderr);
    string_of(o.as_slice())
}

/// The refusal of an edit whose syntax check failed.
pub fn edit_syntax_error(stderr: &str) -> (r: String)
    ensures
        r@ == "Syntax Error after edit:\n"@ + stderr@,
{
    let mut o: Vec<char> = Vec::new();
    append_str(&mut o, "Syntax Error after edit:\n");
    append_str(&mut o, stderr);
    string_of(o.as_slice())
}

/// The answer when the checker `program` could not be run.
pub fn checker_failure(program: &str, message: &str) -> (r: String)
    ensures
        r@ == "Failed to run syntax checker ("@ + program@ + "): "@ + message@,
{
    let mut o: Vec<char> = Vec::new();
    append_str(&mut o, "Failed to run syntax checker (");
    append_str(&mut o, program);
    append_str(&mut o, "): ");
    append_str(&mut o, message);
    string_of(o.as_slice())
}

/// The answer to a dry run of the script `name` in `language`.
pub open spec fn spec_dry_run_report(name: Seq<char>, language: Seq<char>, c: SyntaxCheck) -> Seq<char> {
    match c {
        SyntaxCheck::Passed { stdout, stderr } => "✅ Dry Run Syntax OK for "@ + name + " ("@ + language
            + ").\nOutputs:\n"@ + stdout@ + "\n"@ + stderr@,
        SyntaxCheck::Refused { stderr } => "❌ Syntax Error in "@ + uppercase(language) + ":\n"@ + stderr@,
        SyntaxCheck::CheckerFailed { message } => "Failed to run syntax checker ("@ + (if language
            == "python"@ {
            "python3"@
        } else {
            "bash"@
        }) + "): "@ + message@,
    }
}

/// The answer to a dry run of the script `name` in `language`.
pub fn dry_run_report(name: &str, language: &str, c: &SyntaxCheck) -> (r: String)
    ensures
        r@ == spec_dry_run_report(name@, language@, *c),
{
    match c {
        SyntaxCheck::Passed { stdout, stderr } => {
            let mut o: Vec<char> = Vec::new();
            append_str(&mut o, "✅ Dry Run Syntax OK for ");
            append_str(&mut o, name);
            append_str(&mut o, " (");
            append_str(&mut o, language);
            append_str(&mut o, ").\nOutputs:\n");
            append_str(&mut o, stdout.as_str());
            append_str(&mut o, "\n");
            append_str(&mut o, stderr.as_str());
            string_of(o.as_slice())
        },
        SyntaxCheck::Refused { stderr } => {
            let mut o: Vec<char> = Vec::new();
            append_str(&mut o, "❌ Syntax Error in ");
            let upper = to_uppercase(language);
            append_str(&mut o, upper.as_str());
            append_str(&mut o, ":\n");
            append_str(&mut o, stderr.as_str());
            string_of(o.as_slice())
        },
        SyntaxCheck::CheckerFailed { message } => checker_failure(interpreter(language), message.as_str()),
    }
}

// ───────────────────────── requests ─────────────────────────

/// A request to the forge.
pub enum ForgeCommand {
    /// Create a tool from `code`.
    Create { name: String, description: String, language: String, code: String, created_by: String },
    /// Check the syntax of `code` without recording anything.
    DryRun { name: String, language: String, code: String },
    /// Run the tool `name` on `input`.
    Test { name: String, input: String },
    /// Replace the code of the tool `name`.
    Edit { name: String, code: String },
    Enable { name: String },
    Disable { name: String },
    Delete { name: String },
    List,
    /// An action the forge does not offer.
    Unknown { action: String },
}

/// The abstract value of a [`ForgeCommand`].
pub enum ForgeSpec {
    Create(Seq<char>, Seq<char>, Seq<char>, Seq<char>, Seq<char>),
    DryRun(Seq<char>, Seq<char>, Seq<char>),
    Test(Seq<char>, Seq<char>),
    Edit(Seq<char>, Seq<char>),
    Enable(Seq<char>),
    Disable(Seq<char>),
    Delete(Seq<char>),
    List,
    Unknown(Seq<char>),
}

impl View for ForgeCommand {
    type V = ForgeSpec;

    open spec fn view(&self) -> ForgeSpec {
        match self {
            ForgeCommand::Create { name, description, language, code, created_by } => ForgeSpec::Create(
                name@,
                description@,
                language@,
                code@,
                created_by@,
            ),
            ForgeCommand::DryRun { name, language, code } => ForgeSpec::DryRun(name@, language@, code@),
            ForgeCommand::Test { name, input } => ForgeSpec::Test(name@, input@),
            ForgeCommand::Edit { name, code } => ForgeSpec::Edit(name@, code@),
            ForgeCommand::Enable { name } => ForgeSpec::Enable(name@),
            ForgeCommand::Disable { name } => ForgeSpec::Disable(name@),
            ForgeCommand::Delete { name } => ForgeSpec::Delete(name@),
            ForgeCommand::List => ForgeSpec::List,
            ForgeCommand::Unknown { action } => ForgeSpec::Unknown(action@),
        }
    }
}

/// The code of a request: `code:[..]` up to the last `]` of the description,
/// so that code may hold brackets; trimmed.
pub fn extract_code(desc: &str) -> (r: Option<String>)
    ensures
        opt_str_is(r, spec_last_bracket(desc@, "code"@)),
{
    let d = chars_of(desc);
    let k = chars_of("code");
    match extract_last_bracket_chars(d.as_slice(), k.as_slice()) {
        Some(v) => Some(string_of(v.as_slice())),
        None => None,
    }
}

/// `o`, or `d` when absent.
pub open spec fn value_or(o: Option<Seq<char>>, d: Seq<char>) -> Seq<char> {
    match o {
        Some(x) => x,
        None => d,
    }
}

pub open spec fn missing_name() -> (Seq<char>, Seq<char>) {
    ("Missing: name:[tool_name]"@, "Missing name"@)
}

/// The request `desc` makes, given its lower-cased action.
pub open spec fn spec_forge_command(desc: Seq<char>, action: Seq<char>) -> Result<
    ForgeSpec,
    (Seq<char>, Seq<char>),
> {
    let name = spec_named_tag(desc, "name"@);
    let code = spec_last_bracket(desc, "code"@);
    if action == "create"@ {
        match name {
            Some(n) => match code {
                Some(c) => Ok(
                    ForgeSpec::Create(
                        n,
                        value_or(spec_named_tag(desc, "description"@), n),
                        value_or(spec_named_tag(desc, "language"@), "python"@),
                        c,
                        value_or(spec_named_tag(desc, "created_by"@), "unknown"@),
                    ),
                ),
                None => Err(("Missing: code:[THE CODE]"@, "Missing code"@)),
            },
            None => Err(missing_name()),
        }
    } else if action == "dry_run"@ {
        match code {
            Some(c) => Ok(
                ForgeSpec::DryRun(
                    value_or(name, "dry_run_test"@),
                    value_or(spec_named_tag(desc, "language"@), "python"@),
                    c,
                ),
            ),
            None => Err(("Missing: code:[THE CODE]"@, "Missing code"@)),
        }
    } else if action == "test"@ {
        match name {
            Some(n) => Ok(ForgeSpec::Test(n, value_or(spec_named_tag(desc, "input"@), "test"@))),
            None => Err(missing_name()),
        }
    } else if action == "edit"@ {
        match name {
            Some(n) => match code {
                Some(c) => Ok(ForgeSpec::Edit(n, c)),
                None => Err(("Missing: code:[UPDATED CODE]"@, "Missing code"@)),
            },
            None => Err(missing_name()),
        }
    } else if action == "enable"@ || action == "disable"@ || action == "delete"@ {
        match name {
            Some(n) => Ok(
                if action == "enable"@ {
                    ForgeSpec::Enable(n)
                } else if action == "disable"@ {
                    ForgeSpec::Disable(n)
                } else {
                    ForgeSpec::Delete(n)
                },
            ),
            None => Err(missing_name()),
        }
    } else if action == "list"@ {
        Ok(ForgeSpec::List)
    } else {
        Ok(ForgeSpec::Unknown(action))
    }
}

/// The lower-cased action of a description, `list` by default.
pub open spec fn spec_forge_action(desc: Seq<char>) -> Seq<char> {
    lowercase(value_or(spec_named_tag(desc, "action"@), "list"@))
}

pub open spec fn forge_result_is(
    r: Result<ForgeCommand, ToolError>,
    s: Result<ForgeSpec, (Seq<char>, Seq<char>)>,
) -> bool {
    match s {
        Ok(c) => r matches Ok(x) && x@ == c,
        Err((o, m)) => r matches Err(e) && e.output@ == o && e.reason@ == m,
    }
}

fn named(d: &[char], tag: &str) -> (r: Option<String>)
    ensures
        opt_str_is(r, spec_named_tag(d@, tag@)),
{
    let k = chars_of(tag);
    match extract_named_tag_chars(d, k.as_slice()) {
        Some(v) => Some(string_of(v.as_slice())),
        None => None,
    }
}

fn named_or(d: &[char], tag: &str, dflt: &str) -> (r: String)
    ensures
        r@ == value_or(spec_named_tag(d@, tag@), dflt@),
{
    match named(d, tag) {
        Some(v) => v,
        None => owned(dflt),
    }
}

/// The forge request that `desc` makes, given its lower-cased action.
pub fn forge_command_for(desc: &str, action: &str) -> (r: Result<ForgeCommand, ToolError>)
    ensures
        forge_result_is(r, spec_forge_command(desc@, action@)),
{
    let dv = chars_of(desc);
    let d = dv.as_slice();
    let name = named(d, "name");
    let code = extract_code(desc);
    if str_eq(action, "create") {
        match name {
            Some(n) => match code {
                Some(c) => {
                    let description = match named(d, "description") {
                        Some(x) => x,
                        None => n.clone(),
                    };
                    Ok(
                        ForgeCommand::Create {
                            name: n,
                            description,
                            language: named_or(d, "language", "python"),
                            code: c,
                            created_by: named_or(d, "created_by", "unknown"),
                        },
                    )
                },
                None => Err(tool_error("Missing: code:[THE CODE]", "Missing code")),
            },
            None => Err(tool_error("Missing: name:[tool_name]", "Missing name")),
        }
    } else if str_eq(action, "dry_run") {
        match code {
            Some(c) => Ok(
                ForgeCommand::DryRun {
                    name: match name {
                        Some(n) => n,
                        None => owned("dry_run_test"),
                    },
                    language: named_or(d, "language", "python"),
                    code: c,
                },
            ),
            None => Err(tool_error("Missing: code:[THE CODE]", "Missing code")),
        }
    } else if str_eq(action, "test") {
        match name {
            Some(n) => Ok(ForgeCommand::Test { name: n, input: named_or(d, "input", "test") }),
            None => Err(tool_error("Missing: name:[tool_name]", "Missing name")),
        }
    } else if str_eq(action, "edit") {
        match name {
            Some(n) => match code {
                Some(c) => Ok(ForgeCommand::Edit { name: n, code: c }),
                None => Err(tool_error("Missing: code:[UPDATED CODE]", "Missing code")),
            },
            None => Err(tool_error("Missing: name:[tool_name]", "Missing name")),
        }
    } else if str_eq(action, "enable") || str_eq(action, "disable") || str_eq(action, "delete") {
        match name {
            Some(n) => Ok(
                if str_eq(action, "enable") {
                    ForgeCommand::Enable { name: n }
                } else if str_eq(action, "disable") {
                    ForgeCommand::Disable { name: n }
                } else {
                    ForgeCommand::Delete { name: n }
                },
            ),
            None => Err(tool_error("Missing: name:[tool_name]", "Missing name")),
        }
    } else if str_eq(action, "list") {
        Ok(ForgeCommand::List)
    } else {
        Ok(ForgeCommand::Unknown { action: owned(action) })
    }
}

/// The forge request that `desc` makes; its action is the `action:[..]` tag,
/// `list` by default, lower-cased.
pub fn parse_forge_command(desc: &str) -> (r: Result<ForgeCommand, ToolError>)
    ensures
        forge_result_is(r, spec_forge_command(desc@, spec_forge_action(desc@))),
{
    let dv = chars_of(desc);
    let a = named_or(dv.as_slice(), "action", "list");
    let action = to_lowercase(a.as_str());
    forge_command_for(desc, action.as_str())
}

// ───────────────────────── script input ─────────────────────────

/// The position of the last white-space character of `s`.
pub open spec fn last_white(s: Seq<char>) -> Option<int>
    decreases s.len(),
{
    if s.len() == 0 {
        None
    } else if is_white(s.last()) {
        Some(s.len() - 1)
    } else {
        last_white(s.drop_last())
    }
}

/// The word just before a `:[`: what follows the last white space of `before`,
/// or all of it.
pub open spec fn tag_name_before(before: Seq<char>) -> Seq<char> {
    match last_white(before) {
        Some(k) => tail(before, k + 1),
        None => before,
    }
}

/// The `name:[value]` pairs of `s`, in order: each name is the word before a
/// `:[`, each value runs to the next `]` and is trimmed; scanning stops at a
/// `:[` with no `]` after it.
pub open spec fn spec_tag_pairs(s: Seq<char>) -> Seq<(Seq<char>, Seq<char>)>
    decreases s.len(),
{
    match find(s, ":["@) {
        Some(t) => if 0 <= t && t + 2 <= s.len() {
            let after = tail(s, t + 2);
            match find(after, "]"@) {
                Some(c) => if 0 <= c < after.len() {
                    seq![(tag_name_before(s.subrange(0, t)), trim(after.subrange(0, c)))]
                        + spec_tag_pairs(tail(after, c + 1))
                } else {
                    Seq::empty()
                },
                None => Seq::empty(),
            }
        } else {
            Seq::empty()
        },
        None => Seq::empty(),
    }
}

pub open spec fn pairs_view(v: Seq<(String, String)>) -> Seq<(Seq<char>, Seq<char>)> {
    v.map_values(|p: (String, String)| (p.0@, p.1@))
}

fn last_white_exec(s: &[char]) -> (r: Option<usize>)
    ensures
        match last_white(s@) {
            Some(k) => r matches Some(p) && p as int == k,
            None => r is None,
        },
{
    let mut n: usize = s.len();
    assert(s@.subrange(0, n as int) =~= s@);
    while n > 0
        invariant
            n <= s@.len(),
            last_white(s@) == last_white(s@.subrange(0, n as int)),
        decreases n,
    {
        assert(s@.subrange(0, n as int).drop_last() =~= s@.subrange(0, n - 1));
        if is_white_exec(s[n - 1]) {
            return Some(n - 1);
        }
        n = n - 1;
    }
    None
}

fn tag_name_exec(before: &[char]) -> (r: Vec<char>)
    ensures
        r@ == tag_name_before(before@),
{
    match last_white_exec(before) {
        Some(k) => {
            proof {
                lemma_last_white(before@);
            }
            let n = before.len();
            assert(k < n);
            slice_copy(before, k + 1, n)
        },
        None => slice_copy(before, 0, before.len()),
    }
}

/// The position found by `last_white` lies inside the text.
pub proof fn lemma_last_white(s: Seq<char>)
    ensures
        last_white(s) matches Some(k) ==> 0 <= k < s.len(),
    decreases s.len(),
{
    if s.len() > 0 && !is_white(s.last()) {
        lemma_last_white(s.drop_last());
    }
}

/// The `name:[value]` pairs of `desc`.
pub fn tag_pairs(desc: &str) -> (r: Vec<(String, String)>)
    ensures
        pairs_view(r@) == spec_tag_pairs(desc@),
{
    let mut out: Vec<(String, String)> = Vec::new();
    let mut rest = chars_of(desc);
    let open = chars_of(":[");
    let close = chars_of("]");
    assert(open@ =~= ":["@ && close@ =~= "]"@ && open@.len() == 2 && close@.len() == 1) by {
        reveal_strlit(":[");
        reveal_strlit("]");
    }
    loop
        invariant
            open@ == ":["@,
            close@ == "]"@,
            open@.len() == 2,
            close@.len() == 1,
            spec_tag_pairs(desc@) == pairs_view(out@) + spec_tag_pairs(rest@),
        decreases rest@.len(),
    {
        let ghost r0 = rest@;
        let t = match find_exec(rest.as_slice(), open.as_slice()) {
            Some(t) => t,
            None => {
                assert(pairs_view(out@) + spec_tag_pairs(r0) =~= pairs_view(out@));
                return out;
            },
        };
        let rl = rest.len();
        assert(t + open@.len() <= rest@.len());
        assert(t + 2 <= rl);
        let after = slice_copy(rest.as_slice(), t + 2, rl);
        assert(after@ =~= tail(r0, t + 2));
        let c = match find_exec(after.as_slice(), close.as_slice()) {
            Some(c) => c,
            None => {
                assert(pairs_view(out@) + spec_tag_pairs(r0) =~= pairs_view(out@));
                return out;
            },
        };
        let before = slice_copy(rest.as_slice(), 0, t);
        let name = tag_name_exec(before.as_slice());
        let body = slice_copy(after.as_slice(), 0, c);
        let value = trim_exec(body.as_slice());
        let next = slice_copy(after.as_slice(), c + 1, after.len());
        assert(next@ =~= tail(after@, c + 1));
        let ghost prev = out@;
        out.push((string_of(name.as_slice()), string_of(value.as_slice())));
        assert(pairs_view(out@) =~= pairs_view(prev) + seq![
            (tag_name_before(r0.subrange(0, t as int)), trim(after@.subrange(0, c as int))),
        ]);
        rest = next;
    }
}

/// The object the entries make, a later entry replacing an earlier one of the
/// same key.
pub open spec fn entries_map(s: Seq<(Seq<char>, Seq<char>)>) -> Map<Seq<char>, Seq<char>>
    decreases s.len(),
{
    if s.len() == 0 {
        Map::empty()
    } else {
        entries_map(s.drop_last()).insert(s.last().0, s.last().1)
    }
}

/// No two entries share a key.
pub open spec fn keys_distinct(s: Seq<(Seq<char>, Seq<char>)>) -> bool {
    forall|i: int, j: int| 0 <= i < j < s.len() ==> #[trigger] s[i].0 != #[trigger] s[j].0
}

/// In entries with distinct keys, giving the entry at `k` a new value gives
/// the object that value at its key.
proof fn lemma_entries_update(s: Seq<(Seq<char>, Seq<char>)>, k: int, v: Seq<char>)
    requires
        keys_distinct(s),
        0 <= k < s.len(),
    ensures
        entries_map(s.update(k, (s[k].0, v))) == entries_map(s).insert(s[k].0, v),
    decreases s.len(),
{
    let key = s[k].0;
    let u = s.update(k, (key, v));
    if k == s.len() - 1 {
        assert(u.drop_last() =~= s.drop_last());
        assert(entries_map(u) =~= entries_map(s).insert(key, v));
    } else {
        assert(u.drop_last() =~= s.drop_last().update(k, (key, v)));
        lemma_entries_update(s.drop_last(), k, v);
        assert(s.last().0 != key);
        assert(entries_map(u) =~= entries_map(s).insert(key, v));
    }
}

/// Every key of the object is the key of some entry.
proof fn lemma_entries_keys(s: Seq<(Seq<char>, Seq<char>)>, key: Seq<char>)
    requires
        forall|i: int| 0 <= i < s.len() ==> s[i].0 != key,
    ensures
        !entries_map(s).contains_key(key),
    decreases s.len(),
{
    if s.len() > 0 {
        lemma_entries_keys(s.drop_last(), key);
    }
}

/// The entries of `entries`, one per key: a later entry's value replaces an
/// earlier one's, kept where the key first occurs.
pub fn last_value_per_key(entries: Vec<(String, String)>) -> (r: Vec<(String, String)>)
    ensures
        keys_distinct(pairs_view(r@)),
        entries_map(pairs_view(r@)) == entries_map(pairs_view(entries@)),
{
    let mut out: Vec<(String, String)> = Vec::new();
    let mut i: usize = 0;
    let ghost src = pairs_view(entries@);
    assert(src.subrange(0, 0) =~= Seq::<(Seq<char>, Seq<char>)>::empty());
    assert(pairs_view(out@) =~= Seq::<(Seq<char>, Seq<char>)>::empty());
    while i < entries.len()
        invariant
            i <= entries@.len(),
            src == pairs_view(entries@),
            keys_distinct(pairs_view(out@)),
            entries_map(pairs_view(out@)) == entries_map(src.subrange(0, i as int)),
        decreases entries.len() - i,
    {
        let (key, value) = (entries[i].0.clone(), entries[i].1.clone());
        assert(src[i as int] == (key@, value@));
        assert(src.subrange(0, i + 1).drop_last() =~= src.subrange(0, i as int));
        let ghost before = pairs_view(out@);
        let mut k: usize = 0;
        let mut found: Option<usize> = None;
        while k < out.len()
            invariant_except_break
                found is None,
                forall|j: int| 0 <= j < k ==> before[j].0 != key@,
            invariant
                k <= out@.len(),
                before == pairs_view(out@),
            ensures
                match found {
                    Some(p) => p < out@.len() && before[p as int].0 == key@,
                    None => forall|j: int| 0 <= j < before.len() ==> before[j].0 != key@,
                },
            decreases out.len() - k,
        {
            assert(before[k as int] == (out@[k as int].0@, out@[k as int].1@));
            if str_eq(out[k].0.as_str(), key.as_str()) {
                found = Some(k);
                break;
            }
            k = k + 1;
        }
        match found {
            Some(k) => {
                assert(before[k as int].0 == key@);
                proof {
                    lemma_entries_update(before, k as int, value@);
                }
                out.set(k, (key, value));
                assert(pairs_view(out@) =~= before.update(k as int, (key@, value@)));
            },
            None => {
                assert(forall|j: int| 0 <= j < before.len() ==> before[j].0 != key@);
                out.push((key, value));
                assert(pairs_view(out@) =~= before.push((key@, value@)));
                assert(pairs_view(out@).drop_last() =~= before);
            },
        }
        i = i + 1;
    }
    assert(src.subrange(0, entries@.len() as int) =~= src);
    out
}

/// The JSON text of the string-to-string object `m` (what `serde_json` writes
/// for such a map, its keys in sorted order).
pub uninterp spec fn json_object_text(m: Map<Seq<char>, Seq<char>>) -> Seq<char>;

/// Collects the entries, whose keys are distinct, into a sorted map and writes
/// it as a JSON object with `serde_json::to_string`.  Serialising a map of
/// strings does not fail; should it, the text is `{}`, which the contract does
/// not cover.
#[verifier::external_body]
fn json_object(entries: Vec<(String, String)>) -> (r: String)
    requires
        keys_distinct(pairs_view(entries@)),
    ensures
        r@ == json_object_text(entries_map(pairs_view(entries@))),
{
    let map: std::collections::BTreeMap<String, String> = entries.into_iter().collect();
    match serde_json::to_string(&map) {
        Ok(text) => text,
        Err(_) => String::from("{}"),
    }
}

/// The entries handed to a forged script: the `name:[value]` pairs of the
/// description, then the whole description under `raw_description`.
pub open spec fn spec_script_entries(desc: Seq<char>) -> Seq<(Seq<char>, Seq<char>)> {
    spec_tag_pairs(desc).push(("raw_description"@, desc))
}

/// The JSON object a forged script reads on its standard input: one key per
/// tag name, holding that tag's last value.
pub fn tags_to_json(desc: &str) -> (r: String)
    ensures
        r@ == json_object_text(entries_map(spec_script_entries(desc@))),
{
    let mut entries = tag_pairs(desc);
    let ghost before = entries@;
    entries.push((owned("raw_description"), owned(desc)));
    assert(pairs_view(entries@) =~= pairs_view(before).push(("raw_description"@, desc@)));
    json_object(last_value_per_key(entries))
}

} // verus!
