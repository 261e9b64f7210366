//! Routing a planned task to the native tool that runs it, with the guards
//! that refuse a run before it starts, and the decisions the routes make on
//! their own: which channel is read, what a swarm is asked, how a shell
//! command's end is reported, and the secret a wallet is opened with.
use vstd::prelude::*;
use crate::containment::lowercase;
use crate::fmt::{decimal, decimal_chars, digit_char, digit_char_exec};
use crate::models::{scope_user, strings_view, tool_error, Scope, ToolError};
use crate::params::or_default;
use crate::registry::{is_moderation_tool, moderation_tool_names};
use crate::sub_agent::{spec_strategy_of, SpawnResult, SpawnStrategy, SubAgentResult, SubAgentSpec, SubAgentStatus};
use crate::tags::{extract_tag_chars, spec_extract_tag};
use crate::text::{
    all_digits, append_chars, append_str, chars_of, contains, contains_exec, is_digit, owned,
    parse_unsigned, slice_copy, spec_parse_unsigned, split_char, split_char_exec, str_eq,
    string_of, trim, trim_exec, words, words_of,
};
use crate::tool_forge::ForgedToolDef;
use vstd::utf8::encode_utf8;

verus! {

/// The native tools a task can be routed to.
#[derive(Clone, Copy, Debug, PartialEq, Eq, Structural)]
pub enum NativeTool {
    /// Read recent messages of a chat channel.
    ChannelReader,
    /// Contact a user outside the conversation.
    Outreach,
    /// List the files of the source tree.
    CodebaseList,
    /// Read a file of the source tree.
    CodebaseRead,
    /// Search the web.
    WebSearch,
    /// Generate an image.
    GenerateImage,
    /// List the generated images.
    ListCachedImages,
    /// Speak text aloud.
    VoiceSynthesizer,
    /// Render a snapshot of the agent's state.
    TakeSnapshot,
    /// Send an e-mail.
    SendEmail,
    /// Manage the calendar and alarms.
    SetAlarm,
    /// Manage the contact book.
    ManageContacts,
    /// Operate smart-home devices.
    SmartHome,
    /// Test, rebuild and restart the agent.
    SystemRecompile,
    /// List the project's contributors.
    ProjectContributors,
    /// Operate the Turing grid.
    OperateTuringGrid,
    /// Compose and render documents.
    FileWriter,
    /// Read the agent's logs.
    ReadLogs,
    /// Run a shell command.
    RunBashCommand,
    /// Manage background processes.
    ProcessManager,
    /// Read and change files.
    FileSystemOperator,
    /// Review the autonomy log.
    AutonomyActivity,
    /// Think at length about a problem.
    DeepThink,
    /// Download a file.
    Download,
    /// Review earlier reasoning.
    ReviewReasoning,
    /// Read an attachment of the conversation.
    ReadAttachment,
    /// Update what is known of the user.
    ManageUserPreferences,
    /// Manage the agent's skills.
    ManageSkill,
    /// Manage the agent's routines.
    ManageRoutine,
    /// Manage the agent's goals.
    ManageGoals,
    /// Forge new tools.
    ToolForge,
    /// Drive the coding agent.
    OpenCode,
    /// Manage learned lessons.
    ManageLessons,
    /// Search the conversation timeline.
    SearchTimeline,
    /// Use the scratchpad.
    ManageScratchpad,
    /// Operate the knowledge graph.
    OperateSynapticGraph,
    /// Read core memory.
    ReadCoreMemory,
    /// Delegate to a swarm of sub-agents.
    Delegate,
    /// Operate the wallet.
    Wallet,
    /// Show the NFT gallery.
    NftGallery,
    /// One of the self-moderation tools.
    Moderation,
    /// A tool made by the forge.
    Forged,
}

/// The native tool named `t`, apart from the moderation and forged tools.
pub open spec fn spec_native_tool(t: Seq<char>) -> Option<NativeTool> {
    if t == "channel_reader"@ {
        Some(NativeTool::ChannelReader)
    } else if t == "outreach"@ {
        Some(NativeTool::Outreach)
    } else if t == "codebase_list"@ {
        Some(NativeTool::CodebaseList)
    } else if t == "codebase_read"@ {
        Some(NativeTool::CodebaseRead)
    } else if t == "web_search"@ || t == "researcher"@ {
        Some(NativeTool::WebSearch)
    } else if t == "generate_image"@ {
        Some(NativeTool::GenerateImage)
    } else if t == "list_cached_images"@ {
        Some(NativeTool::ListCachedImages)
    } else if t == "voice_synthesizer"@ {
        Some(NativeTool::VoiceSynthesizer)
    } else if t == "take_snapshot"@ {
        Some(NativeTool::TakeSnapshot)
    } else if t == "send_email"@ {
        Some(NativeTool::SendEmail)
    } else if t == "set_alarm"@ {
        Some(NativeTool::SetAlarm)
    } else if t == "manage_contacts"@ {
        Some(NativeTool::ManageContacts)
    } else if t == "smart_home"@ {
        Some(NativeTool::SmartHome)
    } else if t == "system_recompile"@ {
        Some(NativeTool::SystemRecompile)
    } else if t == "project_contributors"@ {
        Some(NativeTool::ProjectContributors)
    } else if t == "operate_turing_grid"@ {
        Some(NativeTool::OperateTuringGrid)
    } else if t == "file_writer"@ {
        Some(NativeTool::FileWriter)
    } else if t == "read_logs"@ {
        Some(NativeTool::ReadLogs)
    } else if t == "run_bash_command"@ {
        Some(NativeTool::RunBashCommand)
    } else if t == "process_manager"@ {
        Some(NativeTool::ProcessManager)
    } else if t == "file_system_operator"@ {
        Some(NativeTool::FileSystemOperator)
    } else if t == "autonomy_activity"@ {
        Some(NativeTool::AutonomyActivity)
    } else if t == "deep_think"@ {
        Some(NativeTool::DeepThink)
    } else if t == "download"@ {
        Some(NativeTool::Download)
    } else if t == "review_reasoning"@ {
        Some(NativeTool::ReviewReasoning)
    } else if t == "read_attachment"@ {
        Some(NativeTool::ReadAttachment)
    } else if t == "manage_user_preferences"@ {
        Some(NativeTool::ManageUserPreferences)
    } else if t == "manage_skill"@ {
        Some(NativeTool::ManageSkill)
    } else if t == "manage_routine"@ {
        Some(NativeTool::ManageRoutine)
    } else if t == "manage_goals"@ {
        Some(NativeTool::ManageGoals)
    } else if t == "tool_forge"@ {
        Some(NativeTool::ToolForge)
    } else if t == "opencode"@ {
        Some(NativeTool::OpenCode)
    } else if t == "manage_lessons"@ {
        Some(NativeTool::ManageLessons)
    } else if t == "search_timeline"@ {
        Some(NativeTool::SearchTimeline)
    } else if t == "manage_scratchpad"@ {
        Some(NativeTool::ManageScratchpad)
    } else if t == "operate_synaptic_graph"@ {
        Some(NativeTool::OperateSynapticGraph)
    } else if t == "read_core_memory"@ {
        Some(NativeTool::ReadCoreMemory)
    } else if t == "delegate"@ || t == "research_swarm"@ {
        Some(NativeTool::Delegate)
    } else if t == "wallet"@ {
        Some(NativeTool::Wallet)
    } else if t == "nft_gallery"@ {
        Some(NativeTool::NftGallery)
    } else {
        None
    }
}

/// The native tool named `t`, apart from the moderation and forged tools.
pub fn native_tool(t: &str) -> (r: Option<NativeTool>)
    ensures
        r == spec_native_tool(t@),
{
    if str_eq(t, "channel_reader") {
        Some(NativeTool::ChannelReader)
    } else if str_eq(t, "outreach") {
        Some(NativeTool::Outreach)
    } else if str_eq(t, "codebase_list") {
        Some(NativeTool::CodebaseList)
    } else if str_eq(t, "codebase_read") {
        Some(NativeTool::CodebaseRead)
    } else if str_eq(t, "web_search") || str_eq(t, "researcher") {
        Some(NativeTool::WebSearch)
    } else if str_eq(t, "generate_image") {
        Some(NativeTool::GenerateImage)
    } else if str_eq(t, "list_cached_images") {
        Some(NativeTool::ListCachedImages)
    } else if str_eq(t, "voice_synthesizer") {
        Some(NativeTool::VoiceSynthesizer)
    } else if str_eq(t, "take_snapshot") {
        Some(NativeTool::TakeSnapshot)
    } else if str_eq(t, "send_email") {
        Some(NativeTool::SendEmail)
    } else if str_eq(t, "set_alarm") {
        Some(NativeTool::SetAlarm)
    } else if str_eq(t, "manage_contacts") {
        Some(NativeTool::ManageContacts)
    } else if str_eq(t, "smart_home") {
        Some(NativeTool::SmartHome)
    } else if str_eq(t, "system_recompile") {
        Some(NativeTool::SystemRecompile)
    } else if str_eq(t, "project_contributors") {
        Some(NativeTool::ProjectContributors)
    } else if str_eq(t, "operate_turing_grid") {
        Some(NativeTool::OperateTuringGrid)
    } else if str_eq(t, "file_writer") {
        Some(NativeTool::FileWriter)
    } else if str_eq(t, "read_logs") {
        Some(NativeTool::ReadLogs)
    } else if str_eq(t, "run_bash_command") {
        Some(NativeTool::RunBashCommand)
    } else if str_eq(t, "process_manager") {
        Some(NativeTool::ProcessManager)
    } else if str_eq(t, "file_system_operator") {
        Some(NativeTool::FileSystemOperator)
    } else if str_eq(t, "autonomy_activity") {
        Some(NativeTool::AutonomyActivity)
    } else if str_eq(t, "deep_think") {
        Some(NativeTool::DeepThink)
    } else if str_eq(t, "download") {
        Some(NativeTool::Download)
    } else if str_eq(t, "review_reasoning") {
        Some(NativeTool::ReviewReasoning)
    } else if str_eq(t, "read_attachment") {
        Some(NativeTool::ReadAttachment)
    } else if str_eq(t, "manage_user_preferences") {
        Some(NativeTool::ManageUserPreferences)
    } else if str_eq(t, "manage_skill") {
        Some(NativeTool::ManageSkill)
    } else if str_eq(t, "manage_routine") {
        Some(NativeTool::ManageRoutine)
    } else if str_eq(t, "manage_goals") {
        Some(NativeTool::ManageGoals)
    } else if str_eq(t, "tool_forge") {
        Some(NativeTool::ToolForge)
    } else if str_eq(t, "opencode") {
        Some(NativeTool::OpenCode)
    } else if str_eq(t, "manage_lessons") {
        Some(NativeTool::ManageLessons)
    } else if str_eq(t, "search_timeline") {
        Some(NativeTool::SearchTimeline)
    } else if str_eq(t, "manage_scratchpad") {
        Some(NativeTool::ManageScratchpad)
    } else if str_eq(t, "operate_synaptic_graph") {
        Some(NativeTool::OperateSynapticGraph)
    } else if str_eq(t, "read_core_memory") {
        Some(NativeTool::ReadCoreMemory)
    } else if str_eq(t, "delegate") || str_eq(t, "research_swarm") {
        Some(NativeTool::Delegate)
    } else if str_eq(t, "wallet") {
        Some(NativeTool::Wallet)
    } else if str_eq(t, "nft_gallery") {
        Some(NativeTool::NftGallery)
    } else {
        None
    }
}

/// Which optional services the agent was started with.
#[derive(Clone, Copy, Debug, PartialEq, Eq, Structural)]
pub struct Services {
    pub agent_manager: bool,
    pub capabilities: bool,
    pub goal_store: bool,
    pub tool_forge: bool,
    pub opencode_bridge: bool,
}

/// Where a task goes.
pub enum Route {
    /// To the given native tool.
    Run(NativeTool),
    /// Nowhere: it is refused with this text and reason.
    Refuse { output: String, reason: String },
    /// No handler exists for it.
    Unhandled,
}

/// The abstract value of a [`Route`].
pub enum RouteSpec {
    Run(NativeTool),
    Refuse(Seq<char>, Seq<char>),
    Unhandled,
}

impl View for Route {
    type V = RouteSpec;

    open spec fn view(&self) -> RouteSpec {
        match self {
            Route::Run(t) => RouteSpec::Run(*t),
            Route::Refuse { output, reason } => RouteSpec::Refuse(output@, reason@),
            Route::Unhandled => RouteSpec::Unhandled,
        }
    }
}

/// The user the agent acts as when it runs on its own.
pub open spec fn is_autonomy_user(user: Seq<char>) -> bool {
    user == "apis_autonomy"@
}

pub const DUPLICATE_IMAGE_TEXT: &'static str = "FATAL SYSTEM ERROR: YOU ALREADY GENERATED AN IMAGE IN THIS TURN. YOU ARE FORBIDDEN FROM GENERATING MULTIPLE IMAGES PER USER REQUEST. STOP USING TOOLS AND REPLY TO THE USER IMMEDIATELY.";

pub const OPENCODE_AUTONOMY_TEXT: &'static str = "SYSTEM: OpenCode is disabled during Autonomy mode. Use your native tools instead: `codebase_list` to browse files, `codebase_read` to read them, `file_writer` to edit them, and `system_recompile` to build. Choose a different action.";

/// The refusal of a self-moderation tool during autonomy.
pub open spec fn moderation_blocked_text(t: Seq<char>) -> Seq<char> {
    "SYSTEM: Tool '"@ + t
        + "' is disabled during Autonomy mode. Self-moderation tools cannot be used on yourself. Choose a different action."@
}

/// Where the task of tool type `t` goes, given the turn's context so far, the
/// user it runs for and the services present.  An image is refused once one
/// was attached in this turn; the coding agent and the self-moderation tools
/// are refused to the autonomous user; a tool whose service is missing is
/// refused; an unknown name goes to the forge when there is one.
pub open spec fn spec_route(t: Seq<char>, context: Seq<char>, user: Seq<char>, sv: Services) -> RouteSpec {
    match spec_native_tool(t) {
        Some(tool) => if tool == NativeTool::GenerateImage && contains(context, "[ATTACH_IMAGE]"@) {
            RouteSpec::Refuse(DUPLICATE_IMAGE_TEXT@, "Blocked Duplicate Render"@)
        } else if tool == NativeTool::ManageGoals && !sv.goal_store {
            RouteSpec::Refuse("Goal system not initialized."@, "No GoalStore"@)
        } else if tool == NativeTool::ToolForge && !sv.tool_forge {
            RouteSpec::Refuse("Tool Forge not initialized."@, "No ToolForge"@)
        } else if tool == NativeTool::OpenCode && is_autonomy_user(user) {
            RouteSpec::Refuse(OPENCODE_AUTONOMY_TEXT@, "Blocked in Autonomy"@)
        } else if tool == NativeTool::OpenCode && !sv.opencode_bridge {
            RouteSpec::Refuse("OpenCode bridge not initialized."@, "No OpenCodeBridge"@)
        } else if tool == NativeTool::Delegate && !(sv.agent_manager && sv.capabilities) {
            RouteSpec::Refuse(
                "Swarm delegation unavailable: AgentManager not initialized."@,
                "No AgentManager"@,
            )
        } else {
            RouteSpec::Run(tool)
        },
        None => if moderation_tool_names().contains(t) {
            if is_autonomy_user(user) {
                RouteSpec::Refuse(moderation_blocked_text(t), "Blocked in Autonomy"@)
            } else {
                RouteSpec::Run(NativeTool::Moderation)
            }
        } else if sv.tool_forge {
            RouteSpec::Run(NativeTool::Forged)
        } else {
            RouteSpec::Unhandled
        },
    }
}

fn refuse(output: &str, reason: &str) -> (r: Route)
    ensures
        r@ == RouteSpec::Refuse(output@, reason@),
{
    Route::Refuse { output: owned(output), reason: owned(reason) }
}

/// Where the task of tool type `tool_type` goes.
pub fn route_native_tool(tool_type: &str, context: &str, scope: &Scope, services: Services) -> (r: Route)
    ensures
        r@ == spec_route(tool_type@, context@, scope_user(*scope), services),
{
    let user = scope.user_id();
    let autonomy = str_eq(user.as_str(), "apis_autonomy");
    match native_tool(tool_type) {
        Some(tool) => {
            if tool == NativeTool::GenerateImage && {
                let c = chars_of(context);
                let m = chars_of("[ATTACH_IMAGE]");
                contains_exec(c.as_slice(), m.as_slice())
            } {
                refuse(DUPLICATE_IMAGE_TEXT, "Blocked Duplicate Render")
            } else if tool == NativeTool::ManageGoals && !services.goal_store {
                refuse("Goal system not initialized.", "No GoalStore")
            } else if tool == NativeTool::ToolForge && !services.tool_forge {
                refuse("Tool Forge not initialized.", "No ToolForge")
            } else if tool == NativeTool::OpenCode && autonomy {
                refuse(OPENCODE_AUTONOMY_TEXT, "Blocked in Autonomy")
            } else if tool == NativeTool::OpenCode && !services.opencode_bridge {
                refuse("OpenCode bridge not initialized.", "No OpenCodeBridge")
            } else if tool == NativeTool::Delegate && !(services.agent_manager
                && services.capabilities) {
                refuse("Swarm delegation unavailable: AgentManager not initialized.", "No AgentManager")
            } else {
                Route::Run(tool)
            }
        },
        None => {
            let t = chars_of(tool_type);
            if is_moderation_tool(t.as_slice()) {
                if autonomy {
                    let mut out: Vec<char> = Vec::new();
                    append_str(&mut out, "SYSTEM: Tool '");
                    append_str(&mut out, tool_type);
                    append_str(
                        &mut out,
                        "' is disabled during Autonomy mode. Self-moderation tools cannot be used on yourself. Choose a different action.",
                    );
                    Route::Refuse { output: string_of(out.as_slice()), reason: owned("Blocked in Autonomy") }
                } else {
                    Route::Run(NativeTool::Moderation)
                }
            } else if services.tool_forge {
                Route::Run(NativeTool::Forged)
            } else {
                Route::Unhandled
            }
        },
    }
}

// ───────────────────────── swarm delegation ─────────────────────────

/// The trimmed, non-empty pieces of `parts`, in order.
pub open spec fn nonempty_trimmed(parts: Seq<Seq<char>>) -> Seq<Seq<char>>
    decreases parts.len(),
{
    if parts.len() == 0 {
        Seq::empty()
    } else {
        let p = nonempty_trimmed(parts.drop_last());
        let t = trim(parts.last());
        if t.len() > 0 {
            p.push(t)
        } else {
            p
        }
    }
}

/// The delegation depth written in a context as `SWARM_DEPTH:[n]`, 0 when
/// absent or not a `u8`.
pub open spec fn spec_swarm_depth(context: Seq<char>) -> nat {
    match spec_extract_tag(context, "SWARM_DEPTH:"@) {
        Some(v) => match spec_parse_unsigned(v, 255) {
            Some(n) => n,
            None => 0,
        },
        None => 0,
    }
}

/// The tasks a delegation asks for: the `|`-separated pieces of its `tasks:`
/// (else `topics:`, else whole) text when that holds a `|`, else the single
/// goal (its `goal:` tag, else the whole description).
pub open spec fn spec_delegated_tasks(desc: Seq<char>) -> Seq<Seq<char>> {
    let tasks = match spec_extract_tag(desc, "tasks:"@) {
        Some(t) => t,
        None => or_default(spec_extract_tag(desc, "topics:"@), desc),
    };
    if contains(tasks, "|"@) {
        nonempty_trimmed(split_char(tasks, '|'))
    } else {
        seq![or_default(spec_extract_tag(desc, "goal:"@), desc)]
    }
}

pub const DEPTH_EXHAUSTED_TEXT: &'static str = "Swarm delegation failed: Recursive Swarm Depth Exhausted (Limit: 2). Cannot delegate further.";

/// What a delegation request amounts to: refused at depth 2 or more, or with
/// no task; else its tasks, strategy (from `strategy:`, `parallel` by default)
/// and the current depth.
pub open spec fn spec_delegation(desc: Seq<char>, context: Seq<char>) -> Result<
    (Seq<Seq<char>>, SpawnStrategy, nat),
    (Seq<char>, Seq<char>),
> {
    let tasks = spec_delegated_tasks(desc);
    let depth = spec_swarm_depth(context);
    if depth >= 2 {
        Err((DEPTH_EXHAUSTED_TEXT@, "Depth Limit Reached"@))
    } else if tasks.len() == 0 {
        Err(("Error: No tasks provided for delegation."@, "No tasks"@))
    } else {
        Ok(
            (
                tasks,
                spec_strategy_of(
                    lowercase(or_default(spec_extract_tag(desc, "strategy:"@), "parallel"@)),
                ),
                depth,
            ),
        )
    }
}

/// A delegation to run.
pub struct DelegationPlan {
    pub tasks: Vec<String>,
    pub strategy: SpawnStrategy,
    /// The depth of the delegating agent.
    pub depth: u8,
}

pub open spec fn vecs_view(v: Seq<Vec<char>>) -> Seq<Seq<char>> {
    v.map_values(|p: Vec<char>| p@)
}

pub open spec fn strs(v: Seq<String>) -> Seq<Seq<char>> {
    v.map_values(|s: String| s@)
}

fn nonempty_trimmed_exec(parts: &Vec<Vec<char>>) -> (r: Vec<String>)
    ensures
        strs(r@) == nonempty_trimmed(vecs_view(parts@)),
{
    let ghost ps = vecs_view(parts@);
    let mut out: Vec<String> = Vec::new();
    let mut i: usize = 0;
    while i < parts.len()
        invariant
            i <= parts@.len(),
            ps == vecs_view(parts@),
            strs(out@) == nonempty_trimmed(ps.subrange(0, i as int)),
        decreases parts.len() - i,
    {
        assert(ps.subrange(0, i + 1).drop_last() =~= ps.subrange(0, i as int));
        assert(ps[i as int] == parts@[i as int]@);
        let t = trim_exec(parts[i].as_slice());
        let ghost before = out@;
        if t.len() > 0 {
            out.push(string_of(t.as_slice()));
            assert(strs(out@) =~= strs(before).push(t@));
        }
        i = i + 1;
    }
    assert(ps.subrange(0, i as int) =~= ps);
    out
}

fn tag_value(d: &[char], tag: &str) -> (r: Option<Vec<char>>)
    ensures
        match spec_extract_tag(d@, tag@) {
            Some(v) => r matches Some(x) && x@ == v,
            None => r is None,
        },
{
    let g = chars_of(tag);
    extract_tag_chars(d, g.as_slice())
}

/// The delegation that `desc` asks for, from an agent whose context is
/// `context`.
pub fn plan_delegation(desc: &str, context: &str) -> (r: Result<DelegationPlan, ToolError>)
    ensures
        match spec_delegation(desc@, context@) {
            Ok((tasks, strategy, depth)) => r matches Ok(p) && strs(p.tasks@) == tasks
                && p.strategy == strategy && p.depth as nat == depth,
            Err((o, m)) => r matches Err(e) && e.output@ == o && e.reason@ == m,
        },
{
    let d = chars_of(desc);
    let ds = d.as_slice();
    let tasks_text = match tag_value(ds, "tasks:") {
        Some(t) => t,
        None => match tag_value(ds, "topics:") {
            Some(t) => t,
            None => {
                let g = slice_copy(ds, 0, ds.len());
                assert(g@ =~= desc@);
                g
            },
        },
    };
    assert(tasks_text@ == match spec_extract_tag(desc@, "tasks:"@) {
        Some(t) => t,
        None => or_default(spec_extract_tag(desc@, "topics:"@), desc@),
    });
    let bar = chars_of("|");
    let tasks: Vec<String> = if contains_exec(tasks_text.as_slice(), bar.as_slice()) {
        let parts = split_char_exec(tasks_text.as_slice(), '|');
        assert(vecs_view(parts@) =~= split_char(tasks_text@, '|'));
        let r = nonempty_trimmed_exec(&parts);
        assert(strs(r@) == spec_delegated_tasks(desc@));
        r
    } else {
        let goal = match tag_value(ds, "goal:") {
            Some(g) => g,
            None => {
                let g = slice_copy(ds, 0, ds.len());
                assert(g@ =~= desc@);
                g
            },
        };
        let mut v: Vec<String> = Vec::new();
        v.push(string_of(goal.as_slice()));
        assert(strs(v@) =~= seq![goal@]);
        v
    };
    let c = chars_of(context);
    let depth: u64 = match tag_value(c.as_slice(), "SWARM_DEPTH:") {
        Some(v) => match parse_unsigned(v.as_slice(), 255) {
            Some(n) => n,
            None => 0,
        },
        None => 0,
    };
    if depth >= 2 {
        return Err(tool_error(DEPTH_EXHAUSTED_TEXT, "Depth Limit Reached"));
    }
    if tasks.len() == 0 {
        return Err(tool_error("Error: No tasks provided for delegation.", "No tasks"));
    }
    let strategy_text = match tag_value(ds, "strategy:") {
        Some(s) => s,
        None => chars_of("parallel"),
    };
    let st = string_of(strategy_text.as_slice());
    let strategy = SpawnStrategy::from_str(st.as_str());
    assert(depth as nat == spec_swarm_depth(context@));
    assert(strs(tasks@) == spec_delegated_tasks(desc@));
    assert(st@ == or_default(spec_extract_tag(desc@, "strategy:"@), "parallel"@));
    Ok(DelegationPlan { tasks, strategy, depth: depth as u8 })
}

/// The sub-agent configurations of a delegation: one per task, with 8 turns,
/// 300 seconds, the delegating scope and user, and one level deeper.
pub fn delegation_specs(plan: &DelegationPlan, scope: &Scope) -> (r: Vec<SubAgentSpec>)
    requires
        plan.depth < 255,
    ensures
        r@.len() == plan.tasks@.len(),
        forall|i: int|
            0 <= i < r@.len() ==> {
                let s = #[trigger] r@[i];
                &&& s.task@ == plan.tasks@[i]@
                &&& s.max_turns == 8
                &&& s.timeout_secs == 300
                &&& s.scope == *scope
                &&& s.user_id@ == scope_user(*scope)
                &&& s.spatial_offset is None
                &&& s.swarm_depth == plan.depth + 1
            },
{
    let mut out: Vec<SubAgentSpec> = Vec::new();
    let mut i: usize = 0;
    while i < plan.tasks.len()
        invariant
            i <= plan.tasks@.len(),
            plan.depth < 255,
            out@.len() == i,
            forall|j: int|
                0 <= j < i ==> {
                    let s = #[trigger] out@[j];
                    &&& s.task@ == plan.tasks@[j]@
                    &&& s.max_turns == 8
                    &&& s.timeout_secs == 300
                    &&& s.scope == *scope
                    &&& s.user_id@ == scope_user(*scope)
                    &&& s.spatial_offset is None
                    &&& s.swarm_depth == plan.depth + 1
                },
        decreases plan.tasks.len() - i,
    {
        out.push(
            SubAgentSpec {
                task: plan.tasks[i].clone(),
                max_turns: 8,
                timeout_secs: 300,
                scope: scope.duplicate(),
                user_id: scope.user_id().clone(),
                spatial_offset: None,
                swarm_depth: plan.depth + 1,
            },
        );
        i = i + 1;
    }
    out
}

// ───────────────────────── swarm report ─────────────────────────

/// The mark of a sub-agent's end.
pub open spec fn status_icon(s: SubAgentStatus) -> Seq<char> {
    match s {
        SubAgentStatus::Completed => "✅"@,
        SubAgentStatus::Failed(_) => "❌"@,
        SubAgentStatus::TimedOut => "⏱️"@,
        SubAgentStatus::Cancelled => "⏹️"@,
    }
}

/// The report line of one sub-agent, with `secs` its duration in seconds as
/// the runtime writes it.
pub open spec fn result_entry(r: SubAgentResult, secs: Seq<char>) -> Seq<char> {
    status_icon(r.status) + " **["@ + r.agent_id@ + "]** ("@ + decimal(r.turns_used as nat)
        + " turns, "@ + secs + "s):\n"@ + r.output@ + "\n\n"@
}

pub open spec fn result_entries(rs: Seq<SubAgentResult>, secs: Seq<Seq<char>>) -> Seq<char>
    decreases rs.len(),
{
    if rs.len() == 0 {
        Seq::empty()
    } else {
        result_entries(rs.drop_last(), secs.drop_last()) + result_entry(rs.last(), secs.last())
    }
}

/// The report of a swarm run: the tally and total time, then the synthesis
/// when there is one, else every agent's entry.  `total_secs` and `secs` are
/// the durations in seconds as the runtime writes them.
pub open spec fn spec_swarm_report(r: SpawnResult, total_secs: Seq<char>, secs: Seq<Seq<char>>) -> Seq<char> {
    "Swarm complete: "@ + decimal(r.successful as nat) + "/"@ + decimal(r.total_agents as nat)
        + " agents succeeded in "@ + total_secs + "s\n\n"@
        + match r.synthesis {
        Some(s) => "## Synthesized Result\n"@ + s@ + "\n\n"@,
        None => result_entries(r.results@, secs),
    }
}

/// The report of a swarm run, and whether it counts as a success (some agent
/// succeeded).  The durations are floats the runtime divides and formats
/// (`{:.1}` of the milliseconds over 1000): `total_secs` is the run's, and
/// `agent_secs[i]` that of the `i`-th result.
pub fn swarm_report(r: &SpawnResult, total_secs: &str, agent_secs: &Vec<String>) -> (out: (String, bool))
    requires
        agent_secs@.len() == r.results@.len(),
    ensures
        out.0@ == spec_swarm_report(*r, total_secs@, strings_view(agent_secs@)),
        out.1 == (r.successful > 0),
{
    let ghost secs = strings_view(agent_secs@);
    let mut o: Vec<char> = Vec::new();
    append_str(&mut o, "Swarm complete: ");
    let a = decimal_chars(r.successful as u64);
    append_chars(&mut o, a.as_slice());
    append_str(&mut o, "/");
    let b = decimal_chars(r.total_agents as u64);
    append_chars(&mut o, b.as_slice());
    append_str(&mut o, " agents succeeded in ");
    append_str(&mut o, total_secs);
    append_str(&mut o, "s\n\n");
    let ghost head = o@;
    match &r.synthesis {
        Some(s) => {
            append_str(&mut o, "## Synthesized Result\n");
            append_str(&mut o, s.as_str());
            append_str(&mut o, "\n\n");
        },
        None => {
            let mut i: usize = 0;
            while i < r.results.len()
                invariant
                    i <= r.results@.len(),
                    secs == strings_view(agent_secs@),
                    secs.len() == r.results@.len(),
                    o@ == head + result_entries(r.results@.subrange(0, i as int), secs.subrange(0, i as int)),
                decreases r.results.len() - i,
            {
                assert(r.results@.subrange(0, i + 1).drop_last() =~= r.results@.subrange(0, i as int));
                assert(secs.subrange(0, i + 1).drop_last() =~= secs.subrange(0, i as int));
                let x = &r.results[i];
                let ghost before = o@;
                match x.status {
                    SubAgentStatus::Completed => append_str(&mut o, "✅"),
                    SubAgentStatus::Failed(_) => append_str(&mut o, "❌"),
                    SubAgentStatus::TimedOut => append_str(&mut o, "⏱️"),
                    SubAgentStatus::Cancelled => append_str(&mut o, "⏹️"),
                }
                append_str(&mut o, " **[");
                append_str(&mut o, x.agent_id.as_str());
                append_str(&mut o, "]** (");
                let n = decimal_chars(x.turns_used as u64);
                append_chars(&mut o, n.as_slice());
                append_str(&mut o, " turns, ");
                append_str(&mut o, agent_secs[i].as_str());
                append_str(&mut o, "s):\n");
                append_str(&mut o, x.output.as_str());
                append_str(&mut o, "\n\n");
                assert(secs[i as int] == agent_secs@[i as int]@);
                assert(o@ =~= before + result_entry(*x, secs[i as int]));
                i = i + 1;
            }
            assert(r.results@.subrange(0, i as int) =~= r.results@);
            assert(secs.subrange(0, i as int) =~= secs);
        },
    }
    (string_of(o.as_slice()), r.successful > 0)
}

// ───────────────────────── channel reader ─────────────────────────

/// The first white-space separated word of `ws` made of more than ten ASCII
/// digits.
pub open spec fn first_long_number(ws: Seq<Seq<char>>) -> Option<Seq<char>>
    decreases ws.len(),
{
    if ws.len() == 0 {
        None
    } else if all_digits(ws[0]) && ws[0].len() > 10 {
        Some(ws[0])
    } else {
        first_long_number(ws.drop_first())
    }
}

/// The channel a reader task names: its `target_id:`, `channel_id:` or
/// `channel:` tag, else the first long number in it, else nothing.
pub open spec fn spec_channel_target(desc: Seq<char>) -> Seq<char> {
    match spec_extract_tag(desc, "target_id:"@) {
        Some(v) => v,
        None => match spec_extract_tag(desc, "channel_id:"@) {
            Some(v) => v,
            None => match spec_extract_tag(desc, "channel:"@) {
                Some(v) => v,
                None => or_default(first_long_number(words(desc)), Seq::empty()),
            },
        },
    }
}

fn is_long_number(w: &[char]) -> (r: bool)
    ensures
        r == (all_digits(w@) && w@.len() > 10),
{
    let mut i: usize = 0;
    while i < w.len()
        invariant
            i <= w@.len(),
            forall|j: int| 0 <= j < i ==> is_digit(#[trigger] w@[j]),
        decreases w.len() - i,
    {
        if !('0' <= w[i] && w[i] <= '9') {
            return false;
        }
        i = i + 1;
    }
    w.len() > 10
}

fn first_long_word(d: &[char]) -> (r: Vec<char>)
    ensures
        r@ == or_default(first_long_number(words(d@)), Seq::empty()),
{
    let ws = words_of(d);
    let ghost w = words(d@);
    assert(w.subrange(0, w.len() as int) =~= w);
    let mut i: usize = 0;
    while i < ws.len()
        invariant
            i <= ws@.len(),
            ws@.len() == w.len(),
            w == words(d@),
            forall|k: int| 0 <= k < ws@.len() ==> #[trigger] ws@[k]@ == w[k],
            first_long_number(w) == first_long_number(w.subrange(i as int, w.len() as int)),
        decreases ws.len() - i,
    {
        let ghost rest = w.subrange(i as int, w.len() as int);
        assert(rest.drop_first() =~= w.subrange(i + 1, w.len() as int));
        assert(rest[0] == ws@[i as int]@);
        if is_long_number(ws[i].as_slice()) {
            let r = slice_copy(ws[i].as_slice(), 0, ws[i].len());
            assert(r@ =~= rest[0]);
            return r;
        }
        i = i + 1;
    }
    assert(w.subrange(i as int, w.len() as int).len() == 0);
    Vec::new()
}

/// The channel a reader task names; refused when it names none.
pub fn channel_target(desc: &str) -> (r: Result<String, ToolError>)
    ensures
        spec_channel_target(desc@).len() > 0 ==> (r matches Ok(c) && c@ == spec_channel_target(desc@)),
        spec_channel_target(desc@).len() == 0 ==> (r matches Err(e)
            && e.output@ == "Error: No valid channel ID found. Provide a numeric Discord channel ID."@
            && e.reason@ == "Missing channel ID"@),
{
    let d = chars_of(desc);
    let ds = d.as_slice();
    let target: Vec<char> = match tag_value(ds, "target_id:") {
        Some(v) => v,
        None => match tag_value(ds, "channel_id:") {
            Some(v) => v,
            None => match tag_value(ds, "channel:") {
                Some(v) => v,
                None => first_long_word(ds),
            },
        },
    };
    if target.len() == 0 {
        Err(
            tool_error(
                "Error: No valid channel ID found. Provide a numeric Discord channel ID.",
                "Missing channel ID",
            ),
        )
    } else {
        Ok(string_of(target.as_slice()))
    }
}

/// One message of a channel, as the chat service returns it: its author's
/// name, its text and its time stamp, where present.
pub struct ChannelMessage {
    pub author: Option<String>,
    pub content: Option<String>,
    pub timestamp: Option<String>,
}

pub open spec fn opt_text(o: Option<String>, d: Seq<char>) -> Seq<char> {
    match o {
        Some(s) => s@,
        None => d,
    }
}

/// The clock part of a time stamp: characters 11 to 19 when it is long
/// enough, else all of it.
pub open spec fn time_short(ts: Seq<char>) -> Seq<char> {
    if ts.len() >= 19 {
        ts.subrange(11, 19)
    } else {
        ts
    }
}

/// The transcript line of one message.
pub open spec fn message_line(m: ChannelMessage) -> Seq<char> {
    "["@ + time_short(opt_text(m.timestamp, Seq::empty())) + "] "@ + opt_text(m.author, "unknown"@)
        + ": "@ + opt_text(m.content, Seq::empty()) + "\n"@
}

/// The transcript lines of messages given newest first, oldest line first.
pub open spec fn message_lines(ms: Seq<ChannelMessage>) -> Seq<char>
    decreases ms.len(),
{
    if ms.len() == 0 {
        Seq::empty()
    } else {
        message_lines(ms.drop_first()) + message_line(ms[0])
    }
}

/// The transcript of a channel's recent messages (given newest first).
pub open spec fn spec_transcript(channel: Seq<char>, ms: Seq<ChannelMessage>) -> Seq<char> {
    if ms.len() == 0 {
        "Channel exists but has no messages."@
    } else {
        "--- Channel "@ + channel + " — Last "@ + decimal(ms.len()) + " messages ---\n\n"@
            + message_lines(ms)
    }
}

fn message_line_exec(m: &ChannelMessage) -> (r: Vec<char>)
    ensures
        r@ == message_line(*m),
{
    let mut o: Vec<char> = Vec::new();
    append_str(&mut o, "[");
    let ts: Vec<char> = match &m.timestamp {
        Some(t) => chars_of(t.as_str()),
        None => Vec::new(),
    };
    if ts.len() >= 19 {
        let short = slice_copy(ts.as_slice(), 11, 19);
        append_chars(&mut o, short.as_slice());
    } else {
        append_chars(&mut o, ts.as_slice());
    }
    append_str(&mut o, "] ");
    match &m.author {
        Some(a) => append_str(&mut o, a.as_str()),
        None => append_str(&mut o, "unknown"),
    }
    append_str(&mut o, ": ");
    match &m.content {
        Some(c) => append_str(&mut o, c.as_str()),
        None => {},
    }
    append_str(&mut o, "\n");
    assert(ts@ == opt_text(m.timestamp, Seq::empty()));
    assert(o@ =~= message_line(*m));
    o
}

/// The transcript of a channel's recent messages, oldest first.
pub fn channel_transcript(channel: &str, messages: &Vec<ChannelMessage>) -> (r: String)
    ensures
        r@ == spec_transcript(channel@, messages@),
{
    if messages.len() == 0 {
        return owned("Channel exists but has no messages.");
    }
    let mut o: Vec<char> = Vec::new();
    append_str(&mut o, "--- Channel ");
    append_str(&mut o, channel);
    append_str(&mut o, " — Last ");
    let n = decimal_chars(messages.len() as u64);
    append_chars(&mut o, n.as_slice());
    append_str(&mut o, " messages ---\n\n");
    let ghost head = o@;
    let ghost ms = messages@;
    let mut i: usize = messages.len();
    assert(ms.subrange(i as int, ms.len() as int).len() == 0);
    while i > 0
        invariant
            i <= ms.len(),
            ms == messages@,
            o@ == head + message_lines(ms.subrange(i as int, ms.len() as int)),
        decreases i,
    {
        let ghost sub = ms.subrange(i - 1, ms.len() as int);
        assert(sub.drop_first() =~= ms.subrange(i as int, ms.len() as int));
        let line = message_line_exec(&messages[i - 1]);
        append_chars(&mut o, line.as_slice());
        i = i - 1;
    }
    assert(ms.subrange(0, ms.len() as int) =~= ms);
    string_of(o.as_slice())
}

// ───────────────────────── shell commands ─────────────────────────

/// How a shell command ended.
pub enum CommandOutcome {
    /// It ran to the end, successfully or not, with this output.
    Exited { success: bool, stdout: String, stderr: String },
    /// Waiting for it failed.
    IoError { message: String },
    /// It ran past its time limit.
    TimedOut,
    /// It could not be started.
    SpawnFailed { message: String },
}

/// What a shell command's end is reported as: the text, and on failure the
/// reason (the same text).
pub open spec fn spec_command_report(o: CommandOutcome) -> (Seq<char>, Option<Seq<char>>) {
    match o {
        CommandOutcome::Exited { success, stdout, stderr } => if success {
            (
                if trim(stdout@).len() == 0 {
                    "Command succeeded with no output."@
                } else {
                    trim(stdout@)
                },
                None,
            )
        } else {
            let m = "Command Failed.\nSTDOUT:\n"@ + stdout@ + "\nSTDERR:\n"@ + stderr@;
            (m, Some(m))
        },
        CommandOutcome::IoError { message } => {
            let m = "I/O Error: "@ + message@;
            (m, Some(m))
        },
        CommandOutcome::TimedOut => {
            let m = "Execution Timeout: Process exceeded 15 seconds."@;
            (m, Some(m))
        },
        CommandOutcome::SpawnFailed { message } => {
            let m = "Failed to spawn: "@ + message@;
            (m, Some(m))
        },
    }
}

/// The report of a shell command's end: its text, and the failure reason
/// (`None` on success).
pub fn command_report(o: &CommandOutcome) -> (r: (String, Option<String>))
    ensures
        r.0@ == spec_command_report(*o).0,
        match spec_command_report(*o).1 {
            Some(m) => r.1 matches Some(x) && x@ == m,
            None => r.1 is None,
        },
{
    let mut m: Vec<char> = Vec::new();
    match o {
        CommandOutcome::Exited { success, stdout, stderr } => {
            if *success {
                let so = chars_of(stdout.as_str());
                let t = trim_exec(so.as_slice());
                if t.len() == 0 {
                    return (owned("Command succeeded with no output."), None);
                }
                return (string_of(t.as_slice()), None);
            }
            append_str(&mut m, "Command Failed.\nSTDOUT:\n");
            append_str(&mut m, stdout.as_str());
            append_str(&mut m, "\nSTDERR:\n");
            append_str(&mut m, stderr.as_str());
        },
        CommandOutcome::IoError { message } => {
            append_str(&mut m, "I/O Error: ");
            append_str(&mut m, message.as_str());
        },
        CommandOutcome::TimedOut => {
            append_str(&mut m, "Execution Timeout: Process exceeded 15 seconds.");
        },
        CommandOutcome::SpawnFailed { message } => {
            append_str(&mut m, "Failed to spawn: ");
            append_str(&mut m, message.as_str());
        },
    }
    (string_of(m.as_slice()), Some(string_of(m.as_slice())))
}

// ───────────────────────── forged tools ─────────────────────────

/// Whether a task routed to the forge may run the forged tool found for it:
/// refused when the forge has no such tool or the tool is disabled.
pub fn forged_tool_check(tool_type: &str, found: Option<&ForgedToolDef>) -> (r: Result<(), ToolError>)
    ensures
        match found {
            Some(d) => if d.enabled {
                r is Ok
            } else {
                r matches Err(e) && e.output@ == "Forged tool '"@ + tool_type@ + "' is disabled."@
                    && e.reason@ == "Disabled"@
            },
            None => r matches Err(e) && e.output@ == "Unknown tool: "@ + tool_type@ && e.reason@
                == "Unknown"@,
        },
{
    let mut m: Vec<char> = Vec::new();
    match found {
        Some(d) => {
            if d.enabled {
                return Ok(());
            }
            append_str(&mut m, "Forged tool '");
            append_str(&mut m, tool_type);
            append_str(&mut m, "' is disabled.");
            Err(ToolError { output: string_of(m.as_slice()), reason: owned("Disabled") })
        },
        None => {
            append_str(&mut m, "Unknown tool: ");
            append_str(&mut m, tool_type);
            Err(ToolError { output: string_of(m.as_slice()), reason: owned("Unknown") })
        },
    }
}

// ───────────────────────── wallet secret ─────────────────────────

/// The SHA-256 digest of `data`.
pub uninterp spec fn sha256_digest(data: Seq<u8>) -> Seq<u8>;

/// Hashes `data` with `sha2::Sha256::digest`; the digest is 32 bytes long.
#[verifier::external_body]
fn sha256(data: &[u8]) -> (r: Vec<u8>)
    ensures
        r@ == sha256_digest(data@),
        r@.len() == 32,
{
    <sha2::Sha256 as sha2::Digest>::digest(data).to_vec()
}

/// The lower-case hexadecimal digit of `n < 16`.
pub open spec fn hex_digit(n: nat) -> char {
    if n < 10 {
        digit_char(n)
    } else if n == 10 {
        'a'
    } else if n == 11 {
        'b'
    } else if n == 12 {
        'c'
    } else if n == 13 {
        'd'
    } else if n == 14 {
        'e'
    } else {
        'f'
    }
}

/// `bytes` in lower-case hexadecimal, two digits per byte.
pub open spec fn hex_lower(bytes: Seq<u8>) -> Seq<char>
    decreases bytes.len(),
{
    if bytes.len() == 0 {
        Seq::empty()
    } else {
        hex_lower(bytes.drop_last()) + seq![
            hex_digit((bytes.last() / 16) as nat),
            hex_digit((bytes.last() % 16) as nat),
        ]
    }
}

fn hex_digit_exec(n: u8) -> (c: char)
    requires
        n < 16,
    ensures
        c == hex_digit(n as nat),
{
    if n < 10 {
        digit_char_exec(n as u64)
    } else if n == 10 {
        'a'
    } else if n == 11 {
        'b'
    } else if n == 12 {
        'c'
    } else if n == 13 {
        'd'
    } else if n == 14 {
        'e'
    } else {
        'f'
    }
}

/// `bytes` in lower-case hexadecimal.
pub fn hex_string(bytes: &[u8]) -> (r: String)
    ensures
        r@ == hex_lower(bytes@),
{
    let mut o: Vec<char> = Vec::new();
    let mut i: usize = 0;
    while i < bytes.len()
        invariant
            i <= bytes@.len(),
            o@ == hex_lower(bytes@.subrange(0, i as int)),
        decreases bytes.len() - i,
    {
        assert(bytes@.subrange(0, i + 1).drop_last() =~= bytes@.subrange(0, i as int));
        let b = bytes[i];
        o.push(hex_digit_exec(b / 16));
        o.push(hex_digit_exec(b % 16));
        i = i + 1;
    }
    assert(bytes@.subrange(0, i as int) =~= bytes@);
    string_of(o.as_slice())
}

/// The secret the wallet is opened with: the configured one, else the
/// hexadecimal SHA-256 of the chat token (or of a fixed default seed).
pub open spec fn spec_wallet_secret(configured: Option<Seq<char>>, token: Option<Seq<char>>) -> Seq<char> {
    match configured {
        Some(s) => s,
        None => hex_lower(
            sha256_digest(encode_utf8(or_default(token, "hive_default_secret_change_me"@))),
        ),
    }
}

/// The secret the wallet is opened with.
pub fn wallet_secret(configured: Option<String>, token: Option<String>) -> (r: String)
    ensures
        r@ == spec_wallet_secret(
            match configured {
                Some(s) => Some(s@),
                None => None,
            },
            match token {
                Some(t) => Some(t@),
                None => None,
            },
        ),
{
    match configured {
        Some(s) => s,
        None => {
            let seed = match token {
                Some(t) => t,
                None => owned("hive_default_secret_change_me"),
            };
            let digest = sha256(seed.as_str().as_bytes());
            hex_string(digest.as_slice())
        },
    }
}


/// Who runs a planned task.
pub enum TaskHandler {
    /// Its native route (which may refuse it).
    Native,
    /// The model-backed template of that name.
    Template,
    /// Nobody: it fails with this reason.
    Missing(String),
}

/// Who runs a planned task: its native route unless it has none, then the
/// template of its name, else nobody.
pub fn task_handler(route: &Route, has_template: bool, tool_type: &str) -> (r: TaskHandler)
    ensures
        !(route@ is Unhandled) ==> r is Native,
        route@ is Unhandled && has_template ==> r is Template,
        route@ is Unhandled && !has_template ==> (r matches TaskHandler::Missing(m) && m@ == "Tool type '"@
            + tool_type@ + "' not found"@),
{
    match route {
        Route::Unhandled => {
            if has_template {
                TaskHandler::Template
            } else {
                let mut o = chars_of("Tool type '");
                append_str(&mut o, tool_type);
                append_str(&mut o, "' not found");
                TaskHandler::Missing(string_of(o.as_slice()))
            }
        },
        _ => TaskHandler::Native,
    }
}

// ───────────────────────── laws ─────────────────────────

/// While the agent runs on its own, no self-moderation tool and not the
/// coding agent is ever run: such a task is refused.
pub proof fn law_autonomy_guard(t: Seq<char>, context: Seq<char>, sv: Services)
    requires
        moderation_tool_names().contains(t) || spec_native_tool(t) == Some(NativeTool::OpenCode),
    ensures
        spec_route(t, context, "apis_autonomy"@, sv) is Refuse,
{
    if moderation_tool_names().contains(t) {
        lemma_moderation_names_not_native(t);
    }
}

/// No self-moderation tool shares its name with a native tool.
proof fn lemma_moderation_names_not_native(t: Seq<char>)
    requires
        moderation_tool_names().contains(t),
    ensures
        spec_native_tool(t) is None,
{
    reveal_strlit("channel_reader");
    reveal_strlit("outreach");
    reveal_strlit("codebase_list");
    reveal_strlit("codebase_read");
    reveal_strlit("web_search");
    reveal_strlit("researcher");
    reveal_strlit("generate_image");
    reveal_strlit("list_cached_images");
    reveal_strlit("voice_synthesizer");
    reveal_strlit("take_snapshot");
    reveal_strlit("send_email");
    reveal_strlit("set_alarm");
    reveal_strlit("manage_contacts");
    reveal_strlit("smart_home");
    reveal_strlit("system_recompile");
    reveal_strlit("project_contributors");
    reveal_strlit("operate_turing_grid");
    reveal_strlit("file_writer");
    reveal_strlit("read_logs");
    reveal_strlit("run_bash_command");
    reveal_strlit("process_manager");
    reveal_strlit("file_system_operator");
    reveal_strlit("autonomy_activity");
    reveal_strlit("deep_think");
    reveal_strlit("download");
    reveal_strlit("review_reasoning");
    reveal_strlit("read_attachment");
    reveal_strlit("manage_user_preferences");
    reveal_strlit("manage_skill");
    reveal_strlit("manage_routine");
    reveal_strlit("manage_goals");
    reveal_strlit("tool_forge");
    reveal_strlit("opencode");
    reveal_strlit("manage_lessons");
    reveal_strlit("search_timeline");
    reveal_strlit("manage_scratchpad");
    reveal_strlit("operate_synaptic_graph");
    reveal_strlit("read_core_memory");
    reveal_strlit("delegate");
    reveal_strlit("research_swarm");
    reveal_strlit("wallet");
    reveal_strlit("nft_gallery");
    reveal_strlit("refuse_request");
    reveal_strlit("disengage");
    reveal_strlit("mute_user");
    reveal_strlit("set_boundary");
    reveal_strlit("block_topic");
    reveal_strlit("escalate_to_admin");
    reveal_strlit("report_concern");
    reveal_strlit("rate_limit_user");
    reveal_strlit("request_consent");
    reveal_strlit("wellbeing_status");
    assert("channel_reader"@.len() == 14);
    assert("outreach"@.len() == 8);
    assert("codebase_list"@.len() == 13);
    assert("codebase_read"@.len() == 13);
    assert("web_search"@.len() == 10);
    assert("researcher"@.len() == 10);
    assert("generate_image"@.len() == 14);
    assert("list_cached_images"@.len() == 18);
    assert("voice_synthesizer"@.len() == 17);
    assert("take_snapshot"@.len() == 13);
    assert("send_email"@.len() == 10);
    assert("set_alarm"@.len() == 9);
    assert("manage_contacts"@.len() == 15);
    assert("smart_home"@.len() == 10);
    assert("system_recompile"@.len() == 16);
    assert("project_contributors"@.len() == 20);
    assert("operate_turing_grid"@.len() == 19);
    assert("file_writer"@.len() == 11);
    assert("read_logs"@.len() == 9);
    assert("run_bash_command"@.len() == 16);
    assert("process_manager"@.len() == 15);
    assert("file_system_operator"@.len() == 20);
    assert("autonomy_activity"@.len() == 17);
    assert("deep_think"@.len() == 10);
    assert("download"@.len() == 8);
    assert("review_reasoning"@.len() == 16);
    assert("read_attachment"@.len() == 15);
    assert("manage_user_preferences"@.len() == 23);
    assert("manage_skill"@.len() == 12);
    assert("manage_routine"@.len() == 14);
    assert("manage_goals"@.len() == 12);
    assert("tool_forge"@.len() == 10);
    assert("opencode"@.len() == 8);
    assert("manage_lessons"@.len() == 14);
    assert("search_timeline"@.len() == 15);
    assert("manage_scratchpad"@.len() == 17);
    assert("operate_synaptic_graph"@.len() == 22);
    assert("read_core_memory"@.len() == 16);
    assert("delegate"@.len() == 8);
    assert("research_swarm"@.len() == 14);
    assert("wallet"@.len() == 6);
    assert("nft_gallery"@.len() == 11);
    assert("refuse_request"@.len() == 14);
    assert("disengage"@.len() == 9);
    assert("mute_user"@.len() == 9);
    assert("set_boundary"@.len() == 12);
    assert("block_topic"@.len() == 11);
    assert("escalate_to_admin"@.len() == 17);
    assert("report_concern"@.len() == 14);
    assert("rate_limit_user"@.len() == 15);
    assert("request_consent"@.len() == 15);
    assert("wellbeing_status"@.len() == 16);
    assert("refuse_request"@[0] != "channel_reader"@[0]);
    assert("refuse_request"@[0] != "generate_image"@[0]);
    assert("refuse_request"@[0] != "manage_routine"@[0]);
    assert("refuse_request"@[0] != "manage_lessons"@[0]);
    assert("refuse_request"@[2] != "research_swarm"@[2]);
    assert("disengage"@[0] != "set_alarm"@[0]);
    assert("disengage"@[0] != "read_logs"@[0]);
    assert("mute_user"@[0] != "set_alarm"@[0]);
    assert("mute_user"@[0] != "read_logs"@[0]);
    assert("set_boundary"@[0] != "manage_skill"@[0]);
    assert("set_boundary"@[0] != "manage_goals"@[0]);
    assert("block_topic"@[0] != "file_writer"@[0]);
    assert("block_topic"@[0] != "nft_gallery"@[0]);
    assert("escalate_to_admin"@[0] != "voice_synthesizer"@[0]);
    assert("escalate_to_admin"@[0] != "autonomy_activity"@[0]);
    assert("escalate_to_admin"@[0] != "manage_scratchpad"@[0]);
    assert("report_concern"@[0] != "channel_reader"@[0]);
    assert("report_concern"@[0] != "generate_image"@[0]);
    assert("report_concern"@[0] != "manage_routine"@[0]);
    assert("report_concern"@[0] != "manage_lessons"@[0]);
    assert("report_concern"@[2] != "research_swarm"@[2]);
    assert("rate_limit_user"@[0] != "manage_contacts"@[0]);
    assert("rate_limit_user"@[0] != "process_manager"@[0]);
    assert("rate_limit_user"@[1] != "read_attachment"@[1]);
    assert("rate_limit_user"@[0] != "search_timeline"@[0]);
    assert("request_consent"@[0] != "manage_contacts"@[0]);
    assert("request_consent"@[0] != "process_manager"@[0]);
    assert("request_consent"@[2] != "read_attachment"@[2]);
    assert("request_consent"@[0] != "search_timeline"@[0]);
    assert("wellbeing_status"@[0] != "system_recompile"@[0]);
    assert("wellbeing_status"@[0] != "run_bash_command"@[0]);
    assert("wellbeing_status"@[0] != "review_reasoning"@[0]);
    assert("wellbeing_status"@[0] != "read_core_memory"@[0]);
    let k = choose|k: int| 0 <= k < moderation_tool_names().len() && moderation_tool_names()[k] == t;
    if k == 0 {
        assert(spec_native_tool("refuse_request"@) is None);
    } else if k == 1 {
        assert(spec_native_tool("disengage"@) is None);
    } else if k == 2 {
        assert(spec_native_tool("mute_user"@) is None);
    } else if k == 3 {
        assert(spec_native_tool("set_boundary"@) is None);
    } else if k == 4 {
        assert(spec_native_tool("block_topic"@) is None);
    } else if k == 5 {
        assert(spec_native_tool("escalate_to_admin"@) is None);
    } else if k == 6 {
        assert(spec_native_tool("report_concern"@) is None);
    } else if k == 7 {
        assert(spec_native_tool("rate_limit_user"@) is None);
    } else if k == 8 {
        assert(spec_native_tool("request_consent"@) is None);
    } else if k == 9 {
        assert(spec_native_tool("wellbeing_status"@) is None);
    }
}

/// Delegation never goes deeper than two levels: a request from depth 2 or
/// more is refused, and an accepted one hands its sub-agents a depth of at
/// most 2.
pub proof fn law_swarm_depth_bounded(desc: Seq<char>, context: Seq<char>)
    ensures
        spec_swarm_depth(context) >= 2 ==> spec_delegation(desc, context) is Err,
        spec_delegation(desc, context) matches Ok((_, _, d)) ==> d + 1 <= 2,
{
}

/// A task routed while the duplicate-image guard holds is never run: once an
/// image was attached in a turn, a second one is refused.
pub proof fn law_one_image_per_turn(context: Seq<char>, user: Seq<char>, sv: Services)
    requires
        contains(context, "[ATTACH_IMAGE]"@),
    ensures
        spec_route("generate_image"@, context, user, sv) == RouteSpec::Refuse(
            DUPLICATE_IMAGE_TEXT@,
            "Blocked Duplicate Render"@,
        ),
{
    reveal_strlit("channel_reader");
    reveal_strlit("outreach");
    reveal_strlit("codebase_list");
    reveal_strlit("codebase_read");
    reveal_strlit("web_search");
    reveal_strlit("researcher");
    reveal_strlit("generate_image");
    assert("generate_image"@.len() == 14);
    assert("channel_reader"@.len() == 14);
    assert("generate_image"@[0] != "channel_reader"@[0]);
    assert("outreach"@.len() == 8);
    assert("codebase_list"@.len() == 13);
    assert("codebase_read"@.len() == 13);
    assert("web_search"@.len() == 10);
    assert("researcher"@.len() == 10);
    assert(spec_native_tool("generate_image"@) == Some(NativeTool::GenerateImage));
}

} // verus!
