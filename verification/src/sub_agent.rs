//! Sub-agents of the swarm: their specification, status and results, the
//! decisions of their ReAct loop, and how the spawner combines their results.
use vstd::prelude::*;
use vstd::wrapping::u64_specs::wrapping_add;
use crate::containment::{lowercase, to_lowercase};
use crate::fmt::{decimal, decimal_chars, signed_decimal, signed_decimal_chars};
use crate::lifecycle::AgentLifecycle;
use crate::models::{scope_user, strings_view, Scope};
use crate::scheduler::AgentTask;
use crate::text::{append_chars, append_str, chars_of, eq_chars, owned, str_eq, string_of, trim, trim_exec};
use vstd::utf8::{decode_utf8, encode_utf8, is_char_boundary};

verus! {

// ───────────────────────── strategy ─────────────────────────

/// How several sub-agents are run.
#[derive(Clone, Copy, Debug, PartialEq, Eq, Structural)]
pub enum SpawnStrategy {
    /// All agents run concurrently.
    Parallel,
    /// In sequence; each completed agent's output feeds the next.
    Pipeline,
    /// A race: the first successful result wins and the others are cancelled.
    Competitive,
    /// Concurrently, then one merged synthesis of the results.
    FanOutFanIn,
}

/// The strategy a lower-cased name selects; any other name selects `Parallel`.
pub open spec fn spec_strategy_of(lower: Seq<char>) -> SpawnStrategy {
    if lower == "pipeline"@ {
        SpawnStrategy::Pipeline
    } else if lower == "competitive"@ {
        SpawnStrategy::Competitive
    } else if lower == "fan_out_fan_in"@ || lower == "fanoutfanin"@ {
        SpawnStrategy::FanOutFanIn
    } else {
        SpawnStrategy::Parallel
    }
}

impl SpawnStrategy {
    /// The strategy named by the already lower-cased `lower`.
    pub fn from_lowered(lower: &str) -> (r: SpawnStrategy)
        ensures
            r == spec_strategy_of(lower@),
    {
        if str_eq(lower, "pipeline") {
            SpawnStrategy::Pipeline
        } else if str_eq(lower, "competitive") {
            SpawnStrategy::Competitive
        } else if str_eq(lower, "fan_out_fan_in") || str_eq(lower, "fanoutfanin") {
            SpawnStrategy::FanOutFanIn
        } else {
            SpawnStrategy::Parallel
        }
    }

    /// The strategy named by `s`, case-insensitively; `Parallel` for any name
    /// that is not `pipeline`, `competitive`, `fan_out_fan_in` or `fanoutfanin`.
    pub fn from_str(s: &str) -> (r: SpawnStrategy)
        ensures
            r == spec_strategy_of(lowercase(s@)),
    {
        let lower = to_lowercase(s);
        SpawnStrategy::from_lowered(lower.as_str())
    }
}

// ───────────────────────── spec, status, results ─────────────────────────

/// The configuration of one sub-agent.
pub struct SubAgentSpec {
    /// The task the agent must accomplish.
    pub task: String,
    /// ReAct turns before it is stopped.
    pub max_turns: u8,
    /// Time limit in seconds.
    pub timeout_secs: u64,
    /// The scope it acts in, inherited from its caller.
    pub scope: Scope,
    /// The requesting user, for admin checks.
    pub user_id: String,
    /// Its anchor cell in the Turing grid, if assigned.
    pub spatial_offset: Option<(i32, i32, i32)>,
    /// How many delegations deep it runs.
    pub swarm_depth: u8,
}

impl SubAgentSpec {
    /// The default configuration: no task, 8 turns, 300 seconds, a private scope
    /// and user `agent`, no grid anchor, depth 0.
    pub fn default() -> (r: SubAgentSpec)
        ensures
            r.task@ == Seq::<char>::empty(),
            r.max_turns == 8,
            r.timeout_secs == 300,
            r.scope matches Scope::Private { user_id } && user_id@ == "agent"@,
            r.user_id@ == "agent"@,
            r.spatial_offset is None,
            r.swarm_depth == 0,
    {
        SubAgentSpec {
            task: String::new(),
            max_turns: 8,
            timeout_secs: 300,
            scope: Scope::Private { user_id: owned("agent") },
            user_id: owned("agent"),
            spatial_offset: None,
            swarm_depth: 0,
        }
    }
}

/// How a sub-agent ended.
#[derive(Debug, PartialEq)]
pub enum SubAgentStatus {
    Completed,
    Failed(String),
    TimedOut,
    Cancelled,
}

/// What a sub-agent returns.
pub struct SubAgentResult {
    pub agent_id: String,
    pub output: String,
    pub status: SubAgentStatus,
    pub tools_called: Vec<String>,
    pub duration_ms: u64,
    pub turns_used: u8,
}

/// What a spawn of several sub-agents returns.
pub struct SpawnResult {
    pub results: Vec<SubAgentResult>,
    pub synthesis: Option<String>,
    pub total_duration_ms: u64,
    pub successful: usize,
    pub total_agents: usize,
}

// ───────────────────────── the ReAct loop ─────────────────────────

/// The tool names that end a sub-agent's run with its reply.
pub open spec fn is_reply_tool(name: Seq<char>) -> bool {
    name == "reply_to_request"@ || name == "refuse_request"@
}

/// The reply task of a planned turn (the last reply in the plan) and the tool
/// tasks to run (all others except emoji reactions), in order.
pub open spec fn spec_split_plan(ts: Seq<AgentTask>) -> (Option<AgentTask>, Seq<AgentTask>)
    decreases ts.len(),
{
    if ts.len() == 0 {
        (None, Seq::empty())
    } else {
        let (reply, standard) = spec_split_plan(ts.drop_last());
        let t = ts.last();
        if is_reply_tool(t.tool_type@) {
            (Some(t), standard)
        } else if t.tool_type@ == "emoji_react"@ {
            (reply, standard)
        } else {
            (reply, standard.push(t))
        }
    }
}

/// A planned turn's reply is its last `reply_to_request` or `refuse_request`
/// task, if it has one; the tool tasks to run are all its other tasks except
/// the `emoji_react` ones, in plan order, so neither kind of reply is ever run
/// as a tool.
pub proof fn law_split_plan_reply_and_tools(ts: Seq<AgentTask>)
    ensures
        spec_split_plan(ts).1 == ts.filter(
            |t: AgentTask|
                t.tool_type@ != "reply_to_request"@ && t.tool_type@ != "refuse_request"@
                    && t.tool_type@ != "emoji_react"@,
        ),
        forall|i: int|
            0 <= i < spec_split_plan(ts).1.len() ==> (#[trigger] spec_split_plan(ts).1[i]).tool_type@
                != "reply_to_request"@ && spec_split_plan(ts).1[i].tool_type@ != "refuse_request"@,
        match spec_split_plan(ts).0 {
            Some(t) => exists|i: int|
                0 <= i < ts.len() && #[trigger] ts[i] == t && (t.tool_type@ == "reply_to_request"@
                    || t.tool_type@ == "refuse_request"@) && forall|j: int|
                    i < j < ts.len() ==> (#[trigger] ts[j]).tool_type@ != "reply_to_request"@
                        && ts[j].tool_type@ != "refuse_request"@,
            None => forall|i: int|
                0 <= i < ts.len() ==> (#[trigger] ts[i]).tool_type@ != "reply_to_request"@
                    && ts[i].tool_type@ != "refuse_request"@,
        },
    decreases ts.len(),
{
    reveal(Seq::filter);
    if ts.len() > 0 {
        let prev = ts.drop_last();
        law_split_plan_reply_and_tools(prev);
        let t = ts.last();
        assert forall|i: int| 0 <= i < prev.len() implies #[trigger] ts[i] == prev[i] by {}
        let std0 = spec_split_plan(prev).1;
        let std1 = spec_split_plan(ts).1;
        if !is_reply_tool(t.tool_type@) && t.tool_type@ != "emoji_react"@ {
            assert forall|i: int| 0 <= i < std1.len() implies (#[trigger] std1[i]).tool_type@
                != "reply_to_request"@ && std1[i].tool_type@ != "refuse_request"@ by {
                if i < std0.len() {
                    assert(std1[i] == std0[i]);
                }
            }
        }
        match spec_split_plan(ts).0 {
            Some(r) => {
                if is_reply_tool(t.tool_type@) {
                    assert(ts[ts.len() - 1] == r);
                } else {
                    let i = choose|i: int|
                        0 <= i < prev.len() && #[trigger] prev[i] == r && (r.tool_type@
                            == "reply_to_request"@ || r.tool_type@ == "refuse_request"@)
                            && forall|j: int|
                            i < j < prev.len() ==> (#[trigger] prev[j]).tool_type@
                                != "reply_to_request"@ && prev[j].tool_type@ != "refuse_request"@;
                    assert(ts[i] == r);
                    assert forall|j: int| i < j < ts.len() implies (#[trigger] ts[j]).tool_type@
                        != "reply_to_request"@ && ts[j].tool_type@ != "refuse_request"@ by {
                        if j < prev.len() {
                            assert(ts[j] == prev[j]);
                        }
                    }
                }
            },
            None => {
                assert forall|i: int| 0 <= i < ts.len() implies (#[trigger] ts[i]).tool_type@
                    != "reply_to_request"@ && ts[i].tool_type@ != "refuse_request"@ by {
                    if i < prev.len() {
                        assert(ts[i] == prev[i]);
                    }
                }
            },
        }
    }
}

/// Split a planned turn into its reply task and the tool tasks to run.
pub fn split_plan_tasks(tasks: Vec<AgentTask>) -> (r: (Option<AgentTask>, Vec<AgentTask>))
    ensures
        r.0 == spec_split_plan(tasks@).0,
        r.1@ == spec_split_plan(tasks@).1,
        forall|i: int|
            0 <= i < r.1@.len() ==> (#[trigger] r.1@[i]).tool_type@ != "reply_to_request"@
                && r.1@[i].tool_type@ != "refuse_request"@,
{
    let ghost all = tasks@;
    let ghost n = all.len();
    assert(n == tasks.len());
    let mut src = tasks;
    let mut rest: Vec<AgentTask> = Vec::new();
    while src.len() > 0
        invariant
            all.len() == n,
            n <= usize::MAX,
            src@.len() + rest@.len() == n,
            src@ == all.subrange(0, src@.len() as int),
            forall|j: int| 0 <= j < rest@.len() ==> #[trigger] rest@[j] == all[n - 1 - j],
        decreases src.len(),
    {
        let t = src.pop().unwrap();
        rest.push(t);
    }
    let mut reply: Option<AgentTask> = None;
    let mut standard: Vec<AgentTask> = Vec::new();
    let mut i: usize = 0;
    while rest.len() > 0
        invariant
            all.len() == n,
            n <= usize::MAX,
            i + rest@.len() == n,
            forall|j: int| 0 <= j < rest@.len() ==> #[trigger] rest@[j] == all[n - 1 - j],
            reply == spec_split_plan(all.subrange(0, i as int)).0,
            standard@ == spec_split_plan(all.subrange(0, i as int)).1,
        decreases rest.len(),
    {
        let t = rest.pop().unwrap();
        assert(t == all[i as int]);
        assert(all.subrange(0, i + 1).drop_last() =~= all.subrange(0, i as int));
        assert(all.subrange(0, i + 1).last() == t);
        if str_eq(t.tool_type.as_str(), "reply_to_request") || str_eq(
            t.tool_type.as_str(),
            "refuse_request",
        ) {
            reply = Some(t);
        } else if !str_eq(t.tool_type.as_str(), "emoji_react") {
            standard.push(t);
        }
        i = i + 1;
    }
    assert(all.subrange(0, n as int) =~= all);
    proof {
        law_split_plan_reply_and_tools(all);
    }
    (reply, standard)
}

/// Whether `user_id` is an administrator.
pub fn is_admin_user(admin_users: &Vec<String>, user_id: &str) -> (r: bool)
    ensures
        r == strings_view(admin_users@).contains(user_id@),
{
    let u = chars_of(user_id);
    let mut i: usize = 0;
    while i < admin_users.len()
        invariant
            i <= admin_users@.len(),
            u@ == user_id@,
            forall|j: int| 0 <= j < i ==> strings_view(admin_users@)[j] != user_id@,
        decreases admin_users.len() - i,
    {
        let a = chars_of(admin_users[i].as_str());
        if eq_chars(a.as_slice(), u.as_slice()) {
            assert(strings_view(admin_users@)[i as int] == user_id@);
            return true;
        }
        i = i + 1;
    }
    assert(!strings_view(admin_users@).contains(user_id@)) by {
        if strings_view(admin_users@).contains(user_id@) {
            let j = choose|j: int|
                0 <= j < admin_users@.len() && strings_view(admin_users@)[j] == user_id@;
        }
    }
    false
}

/// The task may run: it is not an admin tool, or the caller is an administrator.
pub open spec fn task_permitted(t: AgentTask, admin_tools: Seq<Seq<char>>, is_admin: bool) -> bool {
    is_admin || !admin_tools.contains(t.tool_type@)
}

/// The tasks of `ts` that may run, and those blocked, each in order.
pub open spec fn spec_gate(ts: Seq<AgentTask>, admin_tools: Seq<Seq<char>>, is_admin: bool) -> (
    Seq<AgentTask>,
    Seq<AgentTask>,
)
    decreases ts.len(),
{
    if ts.len() == 0 {
        (Seq::empty(), Seq::empty())
    } else {
        let (ok, blocked) = spec_gate(ts.drop_last(), admin_tools, is_admin);
        if task_permitted(ts.last(), admin_tools, is_admin) {
            (ok.push(ts.last()), blocked)
        } else {
            (ok, blocked.push(ts.last()))
        }
    }
}

/// The security gate of the ReAct loop: admin tools run only for
/// administrators.  Returns the tasks that may run and those that are blocked.
pub fn security_gate(tasks: Vec<AgentTask>, admin_tools: &Vec<String>, is_admin: bool) -> (r: (
    Vec<AgentTask>,
    Vec<AgentTask>,
))
    ensures
        r.0@ == spec_gate(tasks@, strings_view(admin_tools@), is_admin).0,
        r.1@ == spec_gate(tasks@, strings_view(admin_tools@), is_admin).1,
{
    let ghost all = tasks@;
    let ghost n = all.len();
    let ghost tools = strings_view(admin_tools@);
    assert(n == tasks.len());
    let mut src = tasks;
    let mut rest: Vec<AgentTask> = Vec::new();
    while src.len() > 0
        invariant
            all.len() == n,
            n <= usize::MAX,
            src@.len() + rest@.len() == n,
            src@ == all.subrange(0, src@.len() as int),
            forall|j: int| 0 <= j < rest@.len() ==> #[trigger] rest@[j] == all[n - 1 - j],
        decreases src.len(),
    {
        let t = src.pop().unwrap();
        rest.push(t);
    }
    let mut ok: Vec<AgentTask> = Vec::new();
    let mut blocked: Vec<AgentTask> = Vec::new();
    let mut i: usize = 0;
    while rest.len() > 0
        invariant
            all.len() == n,
            n <= usize::MAX,
            tools == strings_view(admin_tools@),
            i + rest@.len() == n,
            forall|j: int| 0 <= j < rest@.len() ==> #[trigger] rest@[j] == all[n - 1 - j],
            ok@ == spec_gate(all.subrange(0, i as int), tools, is_admin).0,
            blocked@ == spec_gate(all.subrange(0, i as int), tools, is_admin).1,
        decreases rest.len(),
    {
        let t = rest.pop().unwrap();
        assert(t == all[i as int]);
        assert(all.subrange(0, i + 1).drop_last() =~= all.subrange(0, i as int));
        assert(all.subrange(0, i + 1).last() == t);
        let admin_tool = is_admin_user(admin_tools, t.tool_type.as_str());
        if is_admin || !admin_tool {
            ok.push(t);
        } else {
            blocked.push(t);
        }
        i = i + 1;
    }
    assert(all.subrange(0, n as int) =~= all);
    (ok, blocked)
}

/// What the sub-agent does after a turn whose plan was split.
#[derive(Clone, Copy, Debug, PartialEq, Eq, Structural)]
pub enum TurnOutcome {
    /// Tools ran this turn: any reply is deferred and the loop goes on.
    Continue,
    /// The reply ends the run.
    Complete,
}

/// The sub-agent completes only on a turn whose plan holds a reply and no tool
/// task; a reply planned beside tool tasks is deferred.
pub fn turn_outcome(ran_tools: bool, has_reply: bool) -> (r: TurnOutcome)
    ensures
        r == (if has_reply && !ran_tools {
            TurnOutcome::Complete
        } else {
            TurnOutcome::Continue
        }),
{
    if has_reply && !ran_tools {
        TurnOutcome::Complete
    } else {
        TurnOutcome::Continue
    }
}

/// The turn counter of a sub-agent.
pub struct TurnCounter {
    pub current_turn: u8,
    pub max_turns: u8,
}

impl TurnCounter {
    pub fn new(max_turns: u8) -> (r: TurnCounter)
        ensures
            r.current_turn == 0,
            r.max_turns == max_turns,
            r.current_turn <= r.max_turns,
    {
        TurnCounter { current_turn: 0, max_turns }
    }

    /// Start the next turn, if the turn budget allows one.
    pub fn begin_turn(&mut self) -> (r: bool)
        ensures
            r == (old(self).current_turn < old(self).max_turns),
            final(self).max_turns == old(self).max_turns,
            final(self).current_turn == if r {
                (old(self).current_turn + 1) as u8
            } else {
                old(self).current_turn
            },
            // the budget is kept: no turn is started past it
            old(self).current_turn <= old(self).max_turns ==> final(self).current_turn
                <= final(self).max_turns,
    {
        if self.current_turn >= self.max_turns {
            return false;
        }
        self.current_turn = self.current_turn + 1;
        true
    }
}

// ───────────────────────── the spawner ─────────────────────────

/// The number of completed results.
pub open spec fn count_completed(rs: Seq<SubAgentResult>) -> nat
    decreases rs.len(),
{
    if rs.len() == 0 {
        0
    } else {
        count_completed(rs.drop_last()) + if rs.last().status is Completed {
            1nat
        } else {
            0nat
        }
    }
}

proof fn lemma_count_bound(rs: Seq<SubAgentResult>)
    ensures
        count_completed(rs) <= rs.len(),
    decreases rs.len(),
{
    if rs.len() > 0 {
        lemma_count_bound(rs.drop_last());
    }
}

/// How many of `results` completed.
pub fn count_successful(results: &Vec<SubAgentResult>) -> (r: usize)
    ensures
        r == count_completed(results@),
{
    let mut n: usize = 0;
    let mut i: usize = 0;
    while i < results.len()
        invariant
            i <= results@.len(),
            n == count_completed(results@.subrange(0, i as int)),
            n <= i,
        decreases results.len() - i,
    {
        assert(results@.subrange(0, i + 1).drop_last() =~= results@.subrange(0, i as int));
        if matches!(results[i].status, SubAgentStatus::Completed) {
            n = n + 1;
        }
        i = i + 1;
    }
    assert(results@.subrange(0, results@.len() as int) =~= results@);
    n
}

/// The lifecycle metrics after recording the outcome of `r`.
pub open spec fn spec_record_outcome(l: AgentLifecycle, r: SubAgentResult) -> AgentLifecycle {
    match r.status {
        SubAgentStatus::Completed => AgentLifecycle {
            total_completed: wrapping_add(l.total_completed, 1),
            total_duration_ms: wrapping_add(l.total_duration_ms, r.duration_ms),
            total_tools_used: wrapping_add(l.total_tools_used, r.tools_called@.len() as u64),
            ..l
        },
        SubAgentStatus::Failed(_) => AgentLifecycle {
            total_failed: wrapping_add(l.total_failed, 1),
            ..l
        },
        SubAgentStatus::TimedOut => AgentLifecycle {
            total_timed_out: wrapping_add(l.total_timed_out, 1),
            ..l
        },
        SubAgentStatus::Cancelled => l,
    }
}

/// The lifecycle metrics after recording every outcome of `rs`, in order.
pub open spec fn spec_record_outcomes(l: AgentLifecycle, rs: Seq<SubAgentResult>) -> AgentLifecycle
    decreases rs.len(),
{
    if rs.len() == 0 {
        l
    } else {
        spec_record_outcome(spec_record_outcomes(l, rs.drop_last()), rs.last())
    }
}

/// Record each result's outcome in the lifecycle metrics: completions with
/// their duration and tool count, failures, time-outs; cancellations are not
/// counted.
pub fn record_outcomes(lifecycle: &mut AgentLifecycle, results: &Vec<SubAgentResult>)
    ensures
        *final(lifecycle) == spec_record_outcomes(*old(lifecycle), results@),
{
    let mut i: usize = 0;
    while i < results.len()
        invariant
            i <= results@.len(),
            *lifecycle == spec_record_outcomes(*old(lifecycle), results@.subrange(0, i as int)),
        decreases results.len() - i,
    {
        assert(results@.subrange(0, i + 1).drop_last() =~= results@.subrange(0, i as int));
        let r = &results[i];
        match &r.status {
            SubAgentStatus::Completed => lifecycle.record_completion(
                r.duration_ms,
                r.tools_called.len(),
            ),
            SubAgentStatus::Failed(_) => lifecycle.record_failure(),
            SubAgentStatus::TimedOut => lifecycle.record_timeout(),
            SubAgentStatus::Cancelled => {},
        }
        i = i + 1;
    }
    assert(results@.subrange(0, results@.len() as int) =~= results@);
}

/// The id of the `i`-th agent (counting from 0) of a spawn: `prefix-(i+1)`.
pub fn agent_label(prefix: &str, i: u64) -> (r: String)
    requires
        i < u64::MAX,
    ensures
        r@ == prefix@ + seq!['-'] + decimal((i + 1) as nat),
{
    let mut v: Vec<char> = Vec::new();
    append_str(&mut v, prefix);
    v.push('-');
    append_chars(&mut v, decimal_chars(i + 1).as_slice());
    string_of(v.as_slice())
}

/// In a pipeline, the context handed to the next agent: the output of the
/// latest agent that completed.
pub fn next_pipeline_context(prev: Option<String>, result: &SubAgentResult) -> (r: Option<String>)
    ensures
        result.status is Completed ==> (r matches Some(x) && x@ == result.output@),
        !(result.status is Completed) ==> r == prev,
{
    match result.status {
        SubAgentStatus::Completed => Some(result.output.clone()),
        _ => prev,
    }
}

/// The results a race keeps: every result received until the first completed
/// one, which ends the race.
pub struct RaceCollector {
    pub results: Vec<SubAgentResult>,
    pub winner_found: bool,
}

impl RaceCollector {
    pub fn new() -> (r: RaceCollector)
        ensures
            r.results@.len() == 0,
            !r.winner_found,
    {
        RaceCollector { results: Vec::new(), winner_found: false }
    }

    /// Take a result in arrival order; returns whether the race is over (this
    /// result is the first that completed).
    pub fn receive(&mut self, result: SubAgentResult) -> (done: bool)
        requires
            !old(self).winner_found,
        ensures
            done == (result.status is Completed),
            final(self).winner_found == done,
            final(self).results@ == old(self).results@.push(result),
    {
        let done = matches!(result.status, SubAgentStatus::Completed);
        self.results.push(result);
        if done {
            self.winner_found = true;
        }
        done
    }

    /// The race's results; when nobody completed and nothing arrived, a single
    /// `race-failed` result.
    pub fn finish(self) -> (r: Vec<SubAgentResult>)
        ensures
            (!self.winner_found && self.results@.len() == 0) ==> ({
                &&& r@.len() == 1
                &&& r@[0].agent_id@ == "race-failed"@
                &&& r@[0].output@ == "No agent completed successfully in the race."@
                &&& (r@[0].status matches SubAgentStatus::Failed(m) && m@ == "All racers failed"@)
                &&& r@[0].tools_called@.len() == 0
                &&& r@[0].duration_ms == 0
                &&& r@[0].turns_used == 0
            }),
            !(!self.winner_found && self.results@.len() == 0) ==> r@ == self.results@,
    {
        if !self.winner_found && self.results.len() == 0 {
            let mut v: Vec<SubAgentResult> = Vec::new();
            v.push(
                SubAgentResult {
                    agent_id: owned("race-failed"),
                    output: owned("No agent completed successfully in the race."),
                    status: SubAgentStatus::Failed(owned("All racers failed")),
                    tools_called: Vec::new(),
                    duration_ms: 0,
                    turns_used: 0,
                },
            );
            return v;
        }
        self.results
    }
}

/// The outputs of the completed results, in order.
pub open spec fn completed_outputs(rs: Seq<SubAgentResult>) -> Seq<Seq<char>>
    decreases rs.len(),
{
    if rs.len() == 0 {
        Seq::empty()
    } else if rs.last().status is Completed {
        completed_outputs(rs.drop_last()).push(rs.last().output@)
    } else {
        completed_outputs(rs.drop_last())
    }
}

/// The outputs of the completed results, in order.
pub fn successful_outputs(results: &Vec<SubAgentResult>) -> (r: Vec<String>)
    ensures
        strings_view(r@) == completed_outputs(results@),
{
    let mut out: Vec<String> = Vec::new();
    let mut i: usize = 0;
    while i < results.len()
        invariant
            i <= results@.len(),
            strings_view(out@) == completed_outputs(results@.subrange(0, i as int)),
        decreases results.len() - i,
    {
        assert(results@.subrange(0, i + 1).drop_last() =~= results@.subrange(0, i as int));
        if matches!(results[i].status, SubAgentStatus::Completed) {
            let ghost before = out@;
            out.push(results[i].output.clone());
            assert(strings_view(out@) =~= strings_view(before).push(results@[i as int].output@));
        }
        i = i + 1;
    }
    assert(results@.subrange(0, results@.len() as int) =~= results@);
    out
}

// ───────────────────────── the aggregator ─────────────────────────

/// What the aggregator does with a set of outputs.
pub enum SynthesisPlan {
    /// Nothing to merge; this is the answer.
    Direct(String),
    /// Ask the model to merge: the system prompt and the combined outputs.
    Merge { system_prompt: String, combined: String },
}

/// The combined outputs, each under a numbered header.
pub open spec fn combined_outputs(os: Seq<Seq<char>>) -> Seq<char>
    decreases os.len(),
{
    if os.len() == 0 {
        Seq::empty()
    } else {
        combined_outputs(os.drop_last()) + "--- Agent "@ + decimal(os.len()) + " Output ---\n"@
            + os.last() + "\n\n"@
    }
}

/// The merge instructions for `n` outputs.
pub open spec fn merge_prompt(n: nat) -> Seq<char> {
    "You are a Result Synthesizer within the HIVE swarm.\nYou have received outputs from "@
        + decimal(n) + MERGE_RULES@
}

pub const MERGE_RULES: &'static str = " independent sub-agents that worked on related tasks.\n\nYOUR JOB:\n1. Read ALL agent outputs carefully.\n2. Merge them into ONE coherent, well-structured response.\n3. Remove redundancies — don't repeat the same information.\n4. Preserve ALL unique findings from each agent.\n5. If agents contradict each other, note the disagreement.\n6. Write the final synthesis as if YOU did all the research.\n7. Do NOT mention \"Agent 1 said...\" or \"Agent 2 found...\" — just present the unified findings.\n\nOutput ONLY the synthesized response. No preamble, no meta-commentary.";

/// How to synthesize `outputs`: a fixed message when there are none, the output
/// itself when there is one, otherwise a merge request.
pub fn plan_synthesis(outputs: &Vec<String>) -> (r: SynthesisPlan)
    requires
        outputs@.len() < u64::MAX,
    ensures
        outputs@.len() == 0 ==> (r matches SynthesisPlan::Direct(s) && s@
            == "No agent outputs to synthesize."@),
        outputs@.len() == 1 ==> (r matches SynthesisPlan::Direct(s) && s@ == outputs@[0]@),
        outputs@.len() > 1 ==> (r matches SynthesisPlan::Merge { system_prompt, combined }
            && system_prompt@ == merge_prompt(outputs@.len()) && combined@ == combined_outputs(
            strings_view(outputs@),
        )),
{
    if outputs.len() == 0 {
        return SynthesisPlan::Direct(owned("No agent outputs to synthesize."));
    }
    if outputs.len() == 1 {
        return SynthesisPlan::Direct(outputs[0].clone());
    }
    let mut combined: Vec<char> = Vec::new();
    let mut i: usize = 0;
    while i < outputs.len()
        invariant
            i <= outputs@.len(),
            outputs@.len() < u64::MAX,
            combined@ == combined_outputs(strings_view(outputs@.subrange(0, i as int))),
        decreases outputs.len() - i,
    {
        let ghost prev = strings_view(outputs@.subrange(0, i as int));
        assert(strings_view(outputs@.subrange(0, i + 1)) =~= prev.push(outputs@[i as int]@));
        assert(strings_view(outputs@.subrange(0, i + 1)).drop_last() =~= prev);
        append_str(&mut combined, "--- Agent ");
        append_chars(&mut combined, decimal_chars((i + 1) as u64).as_slice());
        append_str(&mut combined, " Output ---\n");
        append_str(&mut combined, outputs[i].as_str());
        append_str(&mut combined, "\n\n");
        i = i + 1;
    }
    assert(outputs@.subrange(0, outputs@.len() as int) =~= outputs@);
    let mut prompt: Vec<char> = Vec::new();
    append_str(
        &mut prompt,
        "You are a Result Synthesizer within the HIVE swarm.\nYou have received outputs from ",
    );
    append_chars(&mut prompt, decimal_chars(outputs.len() as u64).as_slice());
    append_str(&mut prompt, MERGE_RULES);
    SynthesisPlan::Merge {
        system_prompt: string_of(prompt.as_slice()),
        combined: string_of(combined.as_slice()),
    }
}


/// What a fan-out spawn answers with, from its successful outputs.
pub enum FanIn {
    /// No agent succeeded: there is no synthesis.
    Nothing,
    /// One agent succeeded: its output is the synthesis.
    One(String),
    /// Several succeeded: their outputs are merged.
    Merge,
}

/// What a fan-out spawn answers with: nothing without a successful output,
/// the output itself when there is one, a merge otherwise.
pub fn fan_in(outputs: &Vec<String>) -> (r: FanIn)
    ensures
        outputs@.len() == 0 ==> r is Nothing,
        outputs@.len() == 1 ==> (r matches FanIn::One(s) && s@ == outputs@[0]@),
        outputs@.len() > 1 ==> r is Merge,
{
    if outputs.len() == 0 {
        FanIn::Nothing
    } else if outputs.len() == 1 {
        FanIn::One(outputs[0].clone())
    } else {
        FanIn::Merge
    }
}

/// The result recorded for an agent whose task panicked, with the panic's
/// message.
pub fn panicked_result(message: &str) -> (r: SubAgentResult)
    ensures
        r.agent_id@ == "panicked"@,
        r.output@ == "Agent panicked: "@ + message@,
        r.status matches SubAgentStatus::Failed(m) && m@ == "Panic"@,
        r.tools_called@.len() == 0,
        r.duration_ms == 0,
        r.turns_used == 0,
{
    let mut o = chars_of("Agent panicked: ");
    append_str(&mut o, message);
    SubAgentResult {
        agent_id: owned("panicked"),
        output: string_of(o.as_slice()),
        status: SubAgentStatus::Failed(owned("Panic")),
        tools_called: Vec::new(),
        duration_ms: 0,
        turns_used: 0,
    }
}


// ───────────────────────── the sub-agent's transcript ─────────────────────────

/// The note of a sub-agent's anchor cell in the Turing grid.
pub open spec fn offset_note(offset: Option<(i32, i32, i32)>) -> Seq<char> {
    match offset {
        Some((x, y, z)) => "\n[SPATIAL SWARM ASSIGNMENT]\nYour physical workspace is anchored at Turing Grid coordinates ["@
            + signed_decimal(x as int) + ", "@ + signed_decimal(y as int) + ", "@ + signed_decimal(z as int)
            + "]. Navigate to these exact coordinates using `turing_move` before writing any pipeline scripts. Do not overwrite memory outside your sector.\n"@,
        None => Seq::empty(),
    }
}

/// The instructions a sub-agent runs under.
pub open spec fn spec_sub_agent_prompt(agent_id: Seq<char>, task: Seq<char>, offset: Option<(i32, i32, i32)>) -> Seq<char> {
    "You are a Sub-Agent within the HIVE swarm. Your ID is '"@ + agent_id
        + "'.\nYou have been delegated a specific task by the Queen (main agent).\nYou have full access to all tools. Execute your task efficiently.\n\nRULES:\n1. Focus ONLY on your assigned task. Do not deviate.\n2. Use tools as needed — you have the same access as the main agent.\n3. When your task is complete, use `reply_to_request` with your findings.\n4. Be concise but thorough in your final output.\n5. If a tool fails, note it and work around it.\n"@
        + offset_note(offset) + "\nYOUR TASK:\n"@ + task + "\n"@
}

/// The instructions a sub-agent runs under.
pub fn sub_agent_prompt(agent_id: &str, task: &str, offset: Option<(i32, i32, i32)>) -> (r: String)
    ensures
        r@ == spec_sub_agent_prompt(agent_id@, task@, offset),
{
    let mut o = chars_of("You are a Sub-Agent within the HIVE swarm. Your ID is '");
    append_str(&mut o, agent_id);
    append_str(
        &mut o,
        "'.\nYou have been delegated a specific task by the Queen (main agent).\nYou have full access to all tools. Execute your task efficiently.\n\nRULES:\n1. Focus ONLY on your assigned task. Do not deviate.\n2. Use tools as needed — you have the same access as the main agent.\n3. When your task is complete, use `reply_to_request` with your findings.\n4. Be concise but thorough in your final output.\n5. If a tool fails, note it and work around it.\n",
    );
    match offset {
        Some((x, y, z)) => {
            append_str(
                &mut o,
                "\n[SPATIAL SWARM ASSIGNMENT]\nYour physical workspace is anchored at Turing Grid coordinates [",
            );
            append_chars(&mut o, signed_decimal_chars(x as i64).as_slice());
            append_str(&mut o, ", ");
            append_chars(&mut o, signed_decimal_chars(y as i64).as_slice());
            append_str(&mut o, ", ");
            append_chars(&mut o, signed_decimal_chars(z as i64).as_slice());
            append_str(
                &mut o,
                "]. Navigate to these exact coordinates using `turing_move` before writing any pipeline scripts. Do not overwrite memory outside your sector.\n",
            );
        },
        None => {},
    }
    append_str(&mut o, "\nYOUR TASK:\n");
    append_str(&mut o, task);
    append_str(&mut o, "\n");
    string_of(o.as_slice())
}

/// The block that hands a pipeline agent its predecessor's output.
pub fn pipeline_block(previous: &str) -> (r: String)
    ensures
        r@ == "[CONTEXT FROM PREVIOUS AGENT]\n"@ + previous@ + "\n\n"@,
{
    let mut o = chars_of("[CONTEXT FROM PREVIOUS AGENT]\n");
    append_str(&mut o, previous);
    append_str(&mut o, "\n\n");
    string_of(o.as_slice())
}

/// `Turn n` followed by `rest`.
fn turn_text(before: &str, turn: u8, rest: &str) -> (r: String)
    ensures
        r@ == before@ + decimal(turn as nat) + rest@,
{
    let mut o = chars_of(before);
    append_chars(&mut o, decimal_chars(turn as u64).as_slice());
    append_str(&mut o, rest);
    string_of(o.as_slice())
}

/// The header of a turn in the transcript.
pub fn turn_header(turn: u8) -> (r: String)
    ensures
        r@ == "\n\nSub-Agent ReAct Turn "@ + decimal(turn as nat) + "\n"@,
{
    turn_text("\n\nSub-Agent ReAct Turn ", turn, "\n")
}

/// The note of a turn whose model call failed with `error`.
pub fn provider_error_note(turn: u8, error: &str) -> (r: String)
    ensures
        r@ == "Turn "@ + decimal(turn as nat) + " - Provider Error: "@ + error@ + "\n"@,
{
    let mut o = chars_of(turn_text("Turn ", turn, " - Provider Error: ").as_str());
    append_str(&mut o, error);
    append_str(&mut o, "\n");
    string_of(o.as_slice())
}

/// The note of a turn whose plan was not valid JSON.
pub fn invalid_plan_note(turn: u8) -> (r: String)
    ensures
        r@ == "Turn "@ + decimal(turn as nat)
            + " - [SYSTEM ERROR] Your output was not valid JSON. Output EXACTLY one JSON block.\n\n"@,
{
    turn_text("Turn ", turn, " - [SYSTEM ERROR] Your output was not valid JSON. Output EXACTLY one JSON block.\n\n")
}

/// The record of the plan a turn produced.
pub fn plan_note(turn: u8, candidate: &str) -> (r: String)
    ensures
        r@ == "Turn "@ + decimal(turn as nat) + " Agent:\n"@ + trim(candidate@) + "\n"@,
{
    let mut o = chars_of(turn_text("Turn ", turn, " Agent:\n").as_str());
    let c = chars_of(candidate);
    append_chars(&mut o, trim_exec(c.as_slice()).as_slice());
    append_str(&mut o, "\n");
    string_of(o.as_slice())
}

/// The note of a task the security gate blocked.
pub fn security_note(turn: u8, task_id: &str, tool: &str) -> (r: String)
    ensures
        r@ == "Turn "@ + decimal(turn as nat) + " - Task "@ + task_id@ + ": SECURITY VIOLATION — "@ + tool@
            + " requires admin privileges.\n\n"@,
{
    let mut o = chars_of(turn_text("Turn ", turn, " - Task ").as_str());
    append_str(&mut o, task_id);
    append_str(&mut o, ": SECURITY VIOLATION — ");
    append_str(&mut o, tool);
    append_str(&mut o, " requires admin privileges.\n\n");
    string_of(o.as_slice())
}

/// The context a sub-agent's tools run with: its delegation depth and task.
pub fn swarm_pass_context(depth: u8, task: &str) -> (r: String)
    ensures
        r@ == "[SWARM_DEPTH:"@ + decimal(depth as nat) + "] "@ + task@,
{
    let mut o = chars_of(turn_text("[SWARM_DEPTH:", depth, "] ").as_str());
    append_str(&mut o, task);
    string_of(o.as_slice())
}

/// How many bytes of a tool's output a transcript keeps.
pub const TRANSCRIPT_OUTPUT_BYTES: usize = 16000;

/// A tool's output as the transcript shows it: at most its first 16 000
/// bytes, with a note of its full size when it is longer.
pub open spec fn spec_output_display(output: Seq<char>) -> Seq<char> {
    let bytes = encode_utf8(output);
    if bytes.len() > 16000 {
        decode_utf8(bytes.subrange(0, 16000)) + "...[truncated, "@ + decimal(bytes.len()) + " bytes total]"@
    } else {
        output
    }
}

/// A tool's output as the transcript shows it.  Its 16 000th byte must end a
/// character when it is longer.
pub fn output_display(output: &str) -> (r: String)
    requires
        encode_utf8(output@).len() <= usize::MAX,
        encode_utf8(output@).len() > 16000 ==> is_char_boundary(encode_utf8(output@), 16000),
    ensures
        r@ == spec_output_display(output@),
{
    let n = output.len();
    if n > TRANSCRIPT_OUTPUT_BYTES {
        let (head, _tail) = output.split_at(TRANSCRIPT_OUTPUT_BYTES);
        proof {
            vstd::utf8::encode_utf8_decode_utf8(head@);
            assert(encode_utf8(head@) =~= encode_utf8(output@).subrange(0, 16000));
            assert(head@ == decode_utf8(encode_utf8(output@).subrange(0, 16000)));
        }
        let mut o = chars_of(head);
        append_str(&mut o, "...[truncated, ");
        append_chars(&mut o, decimal_chars(n as u64).as_slice());
        append_str(&mut o, " bytes total]");
        string_of(o.as_slice())
    } else {
        owned(output)
    }
}

/// The record of a tool's result in the transcript; `status` is the status
/// as the runtime writes it.
pub fn tool_result_note(turn: u8, task_id: &str, status: &str, output: &str) -> (r: String)
    requires
        encode_utf8(output@).len() <= usize::MAX,
        encode_utf8(output@).len() > 16000 ==> is_char_boundary(encode_utf8(output@), 16000),
    ensures
        r@ == "Turn "@ + decimal(turn as nat) + " - Task "@ + task_id@ + ": "@ + status@ + "\nOutput: "@
            + spec_output_display(output@) + "\n\n"@,
{
    let mut o = chars_of(turn_text("Turn ", turn, " - Task ").as_str());
    append_str(&mut o, task_id);
    append_str(&mut o, ": ");
    append_str(&mut o, status);
    append_str(&mut o, "\nOutput: ");
    let d = output_display(output);
    append_str(&mut o, d.as_str());
    append_str(&mut o, "\n\n");
    string_of(o.as_slice())
}

/// The note that a reply planned beside tool tasks waits for the next turn.
pub fn deferred_reply_note(turn: u8) -> (r: String)
    ensures
        r@ == "Turn "@ + decimal(turn as nat)
            + " - [SYSTEM: Reply deferred — tools also ran. Write a new reply with results.]\n\n"@,
{
    turn_text("Turn ", turn, " - [SYSTEM: Reply deferred — tools also ran. Write a new reply with results.]\n\n")
}

/// How a sub-agent's run ended without a reply.
pub enum RunCut {
    /// It used up its turns.
    MaxTurns,
    /// It ran past its time limit.
    TimedOut,
}

/// The result of a run that ended without a reply, and the watchdog's record
/// of it.
pub fn cut_result(
    cut: RunCut,
    agent_id: &str,
    max_turns: u8,
    timeout_secs: u64,
    tools_called: Vec<String>,
    duration_ms: u64,
    turns_used: u8,
) -> (r: (SubAgentResult, String))
    ensures
        r.0.agent_id@ == agent_id@,
        r.0.tools_called@ == tools_called@,
        r.0.duration_ms == duration_ms,
        r.0.turns_used == turns_used,
        match cut {
            RunCut::MaxTurns => {
                &&& r.0.output@ == "[Sub-agent hit max turns ("@ + decimal(max_turns as nat)
                    + "). Partial context available.]"@
                &&& r.0.status matches SubAgentStatus::Failed(m) && m@ == "Max turns exceeded"@
                &&& r.1@ == "[SWARM FATAL] Agent '"@ + agent_id@ + "' hit max turns ("@ + decimal(
                    max_turns as nat,
                ) + ")."@
            },
            RunCut::TimedOut => {
                &&& r.0.output@ == "Sub-agent timed out after "@ + decimal(timeout_secs as nat) + " seconds."@
                &&& r.0.status is TimedOut
                &&& r.1@ == "[SWARM FATAL] Agent '"@ + agent_id@ + "' Timed Out after "@ + decimal(
                    timeout_secs as nat,
                ) + "s."@
            },
        },
{
    let mut fatal = chars_of("[SWARM FATAL] Agent '");
    append_str(&mut fatal, agent_id);
    match cut {
        RunCut::MaxTurns => {
            append_str(&mut fatal, "' hit max turns (");
            append_chars(&mut fatal, decimal_chars(max_turns as u64).as_slice());
            append_str(&mut fatal, ").");
            let mut out = chars_of("[Sub-agent hit max turns (");
            append_chars(&mut out, decimal_chars(max_turns as u64).as_slice());
            append_str(&mut out, "). Partial context available.]");
            (
                SubAgentResult {
                    agent_id: owned(agent_id),
                    output: string_of(out.as_slice()),
                    status: SubAgentStatus::Failed(owned("Max turns exceeded")),
                    tools_called,
                    duration_ms,
                    turns_used,
                },
                string_of(fatal.as_slice()),
            )
        },
        RunCut::TimedOut => {
            append_str(&mut fatal, "' Timed Out after ");
            append_chars(&mut fatal, decimal_chars(timeout_secs).as_slice());
            append_str(&mut fatal, "s.");
            let mut out = chars_of("Sub-agent timed out after ");
            append_chars(&mut out, decimal_chars(timeout_secs).as_slice());
            append_str(&mut out, " seconds.");
            (
                SubAgentResult {
                    agent_id: owned(agent_id),
                    output: string_of(out.as_slice()),
                    status: SubAgentStatus::TimedOut,
                    tools_called,
                    duration_ms,
                    turns_used,
                },
                string_of(fatal.as_slice()),
            )
        },
    }
}

/// The result of a run that ended with the sub-agent's reply: the reply as
/// output, status `Completed`.
pub fn completed_result(
    agent_id: &str,
    reply: String,
    tools_called: Vec<String>,
    duration_ms: u64,
    turns_used: u8,
) -> (r: SubAgentResult)
    ensures
        r.agent_id@ == agent_id@,
        r.output@ == reply@,
        r.status is Completed,
        r.tools_called@ == tools_called@,
        r.duration_ms == duration_ms,
        r.turns_used == turns_used,
{
    SubAgentResult {
        agent_id: owned(agent_id),
        output: reply,
        status: SubAgentStatus::Completed,
        tools_called,
        duration_ms,
        turns_used,
    }
}

// ───────────────────────── the turn loop ─────────────────────────

/// The transcript notes of the turn loop.
pub open spec fn spec_turn_header(t: nat) -> Seq<char> {
    "\n\nSub-Agent ReAct Turn "@ + decimal(t) + "\n"@
}

pub open spec fn spec_provider_note(t: nat, e: Seq<char>) -> Seq<char> {
    "Turn "@ + decimal(t) + " - Provider Error: "@ + e + "\n"@
}

pub open spec fn spec_invalid_note(t: nat) -> Seq<char> {
    "Turn "@ + decimal(t)
        + " - [SYSTEM ERROR] Your output was not valid JSON. Output EXACTLY one JSON block.\n\n"@
}

pub open spec fn spec_plan_note(t: nat, candidate: Seq<char>) -> Seq<char> {
    "Turn "@ + decimal(t) + " Agent:\n"@ + trim(candidate) + "\n"@
}

pub open spec fn spec_security_note(t: nat, task_id: Seq<char>, tool: Seq<char>) -> Seq<char> {
    "Turn "@ + decimal(t) + " - Task "@ + task_id + ": SECURITY VIOLATION — "@ + tool
        + " requires admin privileges.\n\n"@
}

pub open spec fn spec_result_note(t: nat, task_id: Seq<char>, status: Seq<char>, output: Seq<char>) -> Seq<char> {
    "Turn "@ + decimal(t) + " - Task "@ + task_id + ": "@ + status + "\nOutput: "@ + spec_output_display(
        output,
    ) + "\n\n"@
}

pub open spec fn spec_deferred_note(t: nat) -> Seq<char> {
    "Turn "@ + decimal(t)
        + " - [SYSTEM: Reply deferred — tools also ran. Write a new reply with results.]\n\n"@
}

/// The security notes of the blocked tasks, in order.
pub open spec fn security_notes(t: nat, blocked: Seq<AgentTask>) -> Seq<char>
    decreases blocked.len(),
{
    if blocked.len() == 0 {
        Seq::empty()
    } else {
        security_notes(t, blocked.drop_last()) + spec_security_note(
            t,
            blocked.last().task_id@,
            blocked.last().tool_type@,
        )
    }
}

/// What a tool run of a turn gave back: its task, its status as the runtime
/// writes it, and its output.
pub struct ToolOutcome {
    pub task_id: String,
    pub status: String,
    pub output: String,
}

/// The abstract value of a [`ToolOutcome`].
pub struct OutcomeV {
    pub task_id: Seq<char>,
    pub status: Seq<char>,
    pub output: Seq<char>,
}

impl View for ToolOutcome {
    type V = OutcomeV;

    open spec fn view(&self) -> OutcomeV {
        OutcomeV { task_id: self.task_id@, status: self.status@, output: self.output@ }
    }
}

pub open spec fn outcomes_view(v: Seq<ToolOutcome>) -> Seq<OutcomeV> {
    v.map_values(|o: ToolOutcome| o@)
}

/// The result notes of a turn's tool runs, in order.
pub open spec fn result_notes(t: nat, rs: Seq<OutcomeV>) -> Seq<char>
    decreases rs.len(),
{
    if rs.len() == 0 {
        Seq::empty()
    } else {
        result_notes(t, rs.drop_last()) + spec_result_note(
            t,
            rs.last().task_id,
            rs.last().status,
            rs.last().output,
        )
    }
}

/// The tasks of a turn's tool runs, in order.
pub open spec fn result_ids(rs: Seq<OutcomeV>) -> Seq<Seq<char>> {
    rs.map_values(|o: OutcomeV| o.task_id)
}

/// Every output can be shown in the transcript: it is cut at its 16 000th
/// byte, which must end a character.
pub open spec fn outputs_displayable(rs: Seq<OutcomeV>) -> bool {
    forall|i: int|
        0 <= i < rs.len() ==> {
            let b = encode_utf8(#[trigger] rs[i].output);
            &&& b.len() <= usize::MAX
            &&& b.len() > 16000 ==> is_char_boundary(b, 16000)
        }
}

/// Where a sub-agent's run stands: the turn it is in, its turn budget, the
/// tasks its tools ran, its transcript, and whether a reply waits for the
/// tools of this turn to finish.
pub struct RunState {
    pub turn: u8,
    pub max_turns: u8,
    pub tools_called: Vec<String>,
    pub context: String,
    pub reply_waiting: bool,
}

/// The abstract value of a [`RunState`].
pub struct RunStateV {
    pub turn: nat,
    pub max_turns: nat,
    pub tools_called: Seq<Seq<char>>,
    pub context: Seq<char>,
    pub reply_waiting: bool,
}

impl View for RunState {
    type V = RunStateV;

    open spec fn view(&self) -> RunStateV {
        RunStateV {
            turn: self.turn as nat,
            max_turns: self.max_turns as nat,
            tools_called: strings_view(self.tools_called@),
            context: self.context@,
            reply_waiting: self.reply_waiting,
        }
    }
}

/// What the runtime reports to the loop.
pub enum RunEvent {
    /// The run starts.
    Begin,
    /// The model call of this turn failed.
    ProviderFailed { error: String },
    /// The model's answer was not a valid plan.
    PlanInvalid,
    /// The model answered `candidate`, a plan of `tasks`.
    Planned { candidate: String, tasks: Vec<AgentTask> },
    /// The tools of this turn ran, with these outcomes.
    ToolsRan { results: Vec<ToolOutcome> },
}

/// The abstract value of a [`RunEvent`].
pub enum EventV {
    Begin,
    ProviderFailed(Seq<char>),
    PlanInvalid,
    Planned(Seq<char>, Seq<AgentTask>),
    ToolsRan(Seq<OutcomeV>),
}

impl View for RunEvent {
    type V = EventV;

    open spec fn view(&self) -> EventV {
        match self {
            RunEvent::Begin => EventV::Begin,
            RunEvent::ProviderFailed { error } => EventV::ProviderFailed(error@),
            RunEvent::PlanInvalid => EventV::PlanInvalid,
            RunEvent::Planned { candidate, tasks } => EventV::Planned(candidate@, tasks@),
            RunEvent::ToolsRan { results } => EventV::ToolsRan(outcomes_view(results@)),
        }
    }
}

/// What the loop asks the runtime to do next.
pub enum RunAction {
    /// Ask the model for this turn's plan, given the transcript.
    Generate,
    /// Run these tasks (the security gate has let them through).
    RunTools { tasks: Vec<AgentTask> },
    /// The run is complete with this reply.
    Complete { reply: String },
    /// The turn budget is spent.
    OutOfTurns,
}

/// The abstract value of a [`RunAction`].
pub enum ActionV {
    Generate,
    RunTools(Seq<AgentTask>),
    Complete(Seq<char>),
    OutOfTurns,
}

impl View for RunAction {
    type V = ActionV;

    open spec fn view(&self) -> ActionV {
        match self {
            RunAction::Generate => ActionV::Generate,
            RunAction::RunTools { tasks } => ActionV::RunTools(tasks@),
            RunAction::Complete { reply } => ActionV::Complete(reply@),
            RunAction::OutOfTurns => ActionV::OutOfTurns,
        }
    }
}

/// The next turn: refused when the budget is spent; else the turn counter
/// goes up, its header is written, and the model is asked.
pub open spec fn spec_next_turn(s: RunStateV) -> (RunStateV, ActionV) {
    if s.turn >= s.max_turns {
        (s, ActionV::OutOfTurns)
    } else {
        (
            RunStateV { turn: s.turn + 1, context: s.context + spec_turn_header(s.turn + 1), ..s },
            ActionV::Generate,
        )
    }
}

/// One step of a sub-agent's ReAct loop.  A failed model call or an invalid
/// plan is noted and the next turn begins.  A plan is recorded and split: its
/// tool tasks (other than emoji reactions) go through the security gate, the
/// blocked ones are noted, and the rest run, any reply waiting; a plan with a
/// reply and no tool task completes the run; a plan with neither moves on.
/// When tools have run, their tasks are recorded with their outcomes, a
/// waiting reply is noted as deferred, and the next turn begins.
pub open spec fn spec_run_step(s: RunStateV, e: EventV, admin_tools: Seq<Seq<char>>, is_admin: bool) -> (
    RunStateV,
    ActionV,
) {
    match e {
        EventV::Begin => spec_next_turn(s),
        EventV::ProviderFailed(err) => spec_next_turn(
            RunStateV { context: s.context + spec_provider_note(s.turn, err), ..s },
        ),
        EventV::PlanInvalid => spec_next_turn(RunStateV { context: s.context + spec_invalid_note(s.turn), ..s }),
        EventV::Planned(candidate, tasks) => {
            let s1 = RunStateV { context: s.context + spec_plan_note(s.turn, candidate), ..s };
            let (reply, standard) = spec_split_plan(tasks);
            if standard.len() > 0 {
                let (ok, blocked) = spec_gate(standard, admin_tools, is_admin);
                (
                    RunStateV {
                        context: s1.context + security_notes(s.turn, blocked),
                        reply_waiting: reply is Some,
                        ..s1
                    },
                    ActionV::RunTools(ok),
                )
            } else {
                match reply {
                    Some(r) => (s1, ActionV::Complete(r.description@)),
                    None => spec_next_turn(s1),
                }
            }
        },
        EventV::ToolsRan(rs) => spec_next_turn(
            RunStateV {
                tools_called: s.tools_called + result_ids(rs),
                context: s.context + result_notes(s.turn, rs) + if s.reply_waiting {
                    spec_deferred_note(s.turn)
                } else {
                    Seq::empty()
                },
                reply_waiting: false,
                ..s
            },
        ),
    }
}

/// The loop keeps to its turn budget: a step never takes the turn past the
/// budget or changes the budget, and it asks for the next plan only within it.
/// It completes only on a plan that holds a reply and no tool task.
pub proof fn law_run_step_keeps_budget(s: RunStateV, e: EventV, admin_tools: Seq<Seq<char>>, is_admin: bool)
    requires
        s.turn <= s.max_turns,
    ensures
        spec_run_step(s, e, admin_tools, is_admin).0.max_turns == s.max_turns,
        spec_run_step(s, e, admin_tools, is_admin).0.turn <= s.max_turns,
        spec_run_step(s, e, admin_tools, is_admin).1 is OutOfTurns ==> s.turn == s.max_turns,
        spec_run_step(s, e, admin_tools, is_admin).1 is Complete ==> (e matches EventV::Planned(_, ts)
            && spec_split_plan(ts).0 is Some && spec_split_plan(ts).1.len() == 0),
{
}

impl RunState {
    /// A run with the budget `max_turns` whose transcript starts as `context`.
    pub fn new(max_turns: u8, context: String) -> (r: RunState)
        ensures
            r@ == (RunStateV {
                turn: 0,
                max_turns: max_turns as nat,
                tools_called: Seq::empty(),
                context: context@,
                reply_waiting: false,
            }),
    {
        let r = RunState { turn: 0, max_turns, tools_called: Vec::new(), context, reply_waiting: false };
        assert(strings_view(r.tools_called@) =~= Seq::<Seq<char>>::empty());
        r
    }

    fn next_turn(&mut self) -> (a: RunAction)
        ensures
            (final(self)@, a@) == spec_next_turn(old(self)@),
    {
        if self.turn >= self.max_turns {
            return RunAction::OutOfTurns;
        }
        self.turn = self.turn + 1;
        let h = turn_header(self.turn);
        let mut c = chars_of(self.context.as_str());
        append_str(&mut c, h.as_str());
        self.context = string_of(c.as_slice());
        RunAction::Generate
    }

    fn note(&mut self, text: &str)
        ensures
            final(self)@ == (RunStateV { context: old(self)@.context + text@, ..old(self)@ }),
    {
        let mut c = chars_of(self.context.as_str());
        append_str(&mut c, text);
        self.context = string_of(c.as_slice());
    }

    /// One step of the loop: the state after `event`, and what to do next.
    pub fn step(&mut self, event: RunEvent, admin_tools: &Vec<String>, is_admin: bool) -> (a: RunAction)
        requires
            event@ matches EventV::ToolsRan(rs) ==> outputs_displayable(rs),
        ensures
            (final(self)@, a@) == spec_run_step(old(self)@, event@, strings_view(admin_tools@), is_admin),
    {
        match event {
            RunEvent::Begin => self.next_turn(),
            RunEvent::ProviderFailed { error } => {
                let n = provider_error_note(self.turn, error.as_str());
                self.note(n.as_str());
                self.next_turn()
            },
            RunEvent::PlanInvalid => {
                let n = invalid_plan_note(self.turn);
                self.note(n.as_str());
                self.next_turn()
            },
            RunEvent::Planned { candidate, tasks } => {
                let n = plan_note(self.turn, candidate.as_str());
                self.note(n.as_str());
                let (reply, standard) = split_plan_tasks(tasks);
                if standard.len() > 0 {
                    let (ok, blocked) = security_gate(standard, admin_tools, is_admin);
                    let ghost b = blocked@;
                    let ghost s1 = self@;
                    let ghost c0 = self@.context;
                    let mut i: usize = 0;
                    assert(b.subrange(0, 0) =~= Seq::<AgentTask>::empty());
                    assert(c0 + security_notes(self.turn as nat, Seq::empty()) =~= c0);
                    while i < blocked.len()
                        invariant
                            i <= blocked@.len(),
                            b == blocked@,
                            self.turn == old(self).turn,
                            s1.context == c0,
                            self@ == (RunStateV {
                                context: c0 + security_notes(s1.turn, b.subrange(0, i as int)),
                                ..s1
                            }),
                        decreases blocked.len() - i,
                    {
                        let t = &blocked[i];
                        let n = security_note(self.turn, t.task_id.as_str(), t.tool_type.as_str());
                        assert(b.subrange(0, i + 1).drop_last() =~= b.subrange(0, i as int));
                        self.note(n.as_str());
                        assert(self@.context =~= c0 + security_notes(self.turn as nat, b.subrange(0, i + 1)));
                        i = i + 1;
                    }
                    assert(b.subrange(0, b.len() as int) =~= b);
                    self.reply_waiting = reply.is_some();
                    RunAction::RunTools { tasks: ok }
                } else {
                    match reply {
                        Some(r) => RunAction::Complete { reply: r.description },
                        None => self.next_turn(),
                    }
                }
            },
            RunEvent::ToolsRan { results } => {
                let ghost rs = outcomes_view(results@);
                let ghost s0 = self@;
                let mut i: usize = 0;
                assert(rs.subrange(0, 0) =~= Seq::<OutcomeV>::empty());
                assert(s0.tools_called + result_ids(Seq::empty()) =~= s0.tools_called);
                assert(s0.context + result_notes(s0.turn, Seq::empty()) =~= s0.context);
                while i < results.len()
                    invariant
                        i <= results@.len(),
                        rs == outcomes_view(results@),
                        outputs_displayable(rs),
                        self.turn == s0.turn,
                        self@ == (RunStateV {
                            tools_called: s0.tools_called + result_ids(rs.subrange(0, i as int)),
                            context: s0.context + result_notes(s0.turn, rs.subrange(0, i as int)),
                            ..s0
                        }),
                    decreases results.len() - i,
                {
                    let o = &results[i];
                    assert(rs[i as int] == o@);
                    assert(rs[i as int].output == o.output@);
                    assert(encode_utf8(rs[i as int].output).len() <= usize::MAX);
                    let n = tool_result_note(self.turn, o.task_id.as_str(), o.status.as_str(), o.output.as_str());
                    assert(rs.subrange(0, i + 1).drop_last() =~= rs.subrange(0, i as int));
                    let ghost before = strings_view(self.tools_called@);
                    self.tools_called.push(o.task_id.clone());
                    assert(strings_view(self.tools_called@) =~= before.push(o.task_id@));
                    assert(result_ids(rs.subrange(0, i + 1)) =~= result_ids(rs.subrange(0, i as int)).push(
                        o.task_id@,
                    ));
                    self.note(n.as_str());
                    assert(self@.context =~= s0.context + result_notes(s0.turn, rs.subrange(0, i + 1)));
                    assert(self@.tools_called =~= s0.tools_called + result_ids(rs.subrange(0, i + 1)));
                    i = i + 1;
                }
                assert(rs.subrange(0, rs.len() as int) =~= rs);
                if self.reply_waiting {
                    let n = deferred_reply_note(self.turn);
                    self.note(n.as_str());
                } else {
                    assert(self@.context + Seq::<char>::empty() =~= self@.context);
                }
                self.reply_waiting = false;
                self.next_turn()
            },
        }
    }
}

} // verus!
