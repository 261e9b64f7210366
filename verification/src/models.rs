//! Shared data types of the agent layer: tool templates, tool results and the
//! conversation scope a task runs in.
use vstd::prelude::*;

verus! {

/// The abstract value of a [`ToolTemplate`].
pub struct TemplateView {
    pub name: Seq<char>,
    pub system_prompt: Seq<char>,
    pub tools: Seq<Seq<char>>,
}

/// A tool the planner can call: its name, the instructions it reads, and the
/// names of the sub-tools it may use.
pub struct ToolTemplate {
    pub name: String,
    pub system_prompt: String,
    pub tools: Vec<String>,
}

pub open spec fn strings_view(v: Seq<String>) -> Seq<Seq<char>> {
    v.map_values(|s: String| s@)
}

impl View for ToolTemplate {
    type V = TemplateView;

    open spec fn view(&self) -> TemplateView {
        TemplateView {
            name: self.name@,
            system_prompt: self.system_prompt@,
            tools: strings_view(self.tools@),
        }
    }
}

/// A copy of every string of `v`.
pub fn clone_strings(v: &Vec<String>) -> (r: Vec<String>)
    ensures
        strings_view(r@) =~= strings_view(v@),
{
    let mut r: Vec<String> = Vec::new();
    let mut i: usize = 0;
    while i < v.len()
        invariant
            i <= v@.len(),
            r@.len() == i,
            forall|j: int| 0 <= j < i ==> #[trigger] r@[j]@ == v@[j]@,
        decreases v.len() - i,
    {
        r.push(v[i].clone());
        i = i + 1;
    }
    assert(strings_view(r@) =~= strings_view(v@));
    r
}

impl ToolTemplate {
    /// A template with the given name and instructions and no sub-tools.
    pub fn plain(name: String, system_prompt: String) -> (r: ToolTemplate)
        ensures
            r@ == (TemplateView { name: name@, system_prompt: system_prompt@, tools: seq![] }),
    {
        let r = ToolTemplate { name, system_prompt, tools: Vec::new() };
        assert(strings_view(r.tools@) =~= seq![]);
        r
    }

    /// A copy of this template.
    pub fn duplicate(&self) -> (r: ToolTemplate)
        ensures
            r@ == self@,
    {
        ToolTemplate {
            name: self.name.clone(),
            system_prompt: self.system_prompt.clone(),
            tools: clone_strings(&self.tools),
        }
    }
}

/// How a tool run ended.
pub enum ToolStatus {
    Success,
    Failed(String),
}

/// The outcome of one tool run.
pub struct ToolResult {
    pub task_id: String,
    pub output: String,
    pub tokens_used: u64,
    pub status: ToolStatus,
}

/// A refusal of a request: the text shown to the planner and the reason the
/// run is marked failed.
#[derive(Debug)]
pub struct ToolError {
    pub output: String,
    pub reason: String,
}

/// A refusal with the given text and reason.
pub fn tool_error(output: &str, reason: &str) -> (r: ToolError)
    ensures
        r.output@ == output@,
        r.reason@ == reason@,
{
    ToolError { output: crate::text::owned(output), reason: crate::text::owned(reason) }
}

/// The conversation a task belongs to.
pub enum Scope {
    /// A public channel.
    Public { channel_id: String, user_id: String },
    /// A direct conversation with one user.
    Private { user_id: String },
}

/// The user on whose behalf a task runs.
pub open spec fn scope_user(s: Scope) -> Seq<char> {
    match s {
        Scope::Public { user_id, .. } => user_id@,
        Scope::Private { user_id } => user_id@,
    }
}

impl Scope {
    /// A copy of this scope.
    pub fn duplicate(&self) -> (r: Scope)
        ensures
            r == *self,
    {
        match self {
            Scope::Public { channel_id, user_id } => Scope::Public {
                channel_id: channel_id.clone(),
                user_id: user_id.clone(),
            },
            Scope::Private { user_id } => Scope::Private { user_id: user_id.clone() },
        }
    }

    /// The user on whose behalf a task in this scope runs.
    pub fn user_id(&self) -> (r: &String)
        ensures
            r@ == scope_user(*self),
    {
        match self {
            Scope::Public { user_id, .. } => user_id,
            Scope::Private { user_id } => user_id,
        }
    }
}

} // verus!
