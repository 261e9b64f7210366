//! Agent lifecycle: counters of sub-agent spawns, completions, failures and
//! time-outs, and the health verdict and dashboards derived from them.
//!
//! The counters wrap around on overflow, as the atomic counters of a running
//! process do.
use vstd::prelude::*;
use vstd::wrapping::u64_specs::wrapping_add;
use crate::fmt::{decimal, decimal_chars};
use crate::text::{append_chars, append_str, string_of};

verus! {

/// Swarm activity metrics.
pub struct AgentLifecycle {
    pub total_spawned: u64,
    pub total_completed: u64,
    pub total_failed: u64,
    pub total_timed_out: u64,
    pub total_duration_ms: u64,
    pub total_tools_used: u64,
}

/// Average duration of completed agents, in ms (0 when none completed).
pub open spec fn spec_avg_duration(l: AgentLifecycle) -> nat {
    if l.total_completed == 0 {
        0
    } else {
        (l.total_duration_ms / l.total_completed) as nat
    }
}

/// The health status: `HEALTHY` when the completions are at least 80 in 100
/// of the spawns (or there are no spawns), `DEGRADED` from 50 in 100,
/// `CRITICAL` below.
pub open spec fn spec_health(l: AgentLifecycle) -> Seq<char> {
    if l.total_spawned == 0 || 100 * l.total_completed >= 80 * l.total_spawned {
        "HEALTHY"@
    } else if 100 * l.total_completed >= 50 * l.total_spawned {
        "DEGRADED"@
    } else {
        "CRITICAL"@
    }
}

/// The one-line HUD summary, with `avg_secs` the average duration in seconds
/// as the runtime writes it.
pub open spec fn spec_hud_line(l: AgentLifecycle, avg_secs: Seq<char>) -> Seq<char> {
    if l.total_spawned == 0 {
        "🐝 Swarm: No agents spawned this session"@
    } else {
        "🐝 Swarm: "@ + decimal(l.total_spawned as nat) + " spawned | "@ + decimal(
            l.total_completed as nat,
        ) + " completed | "@ + decimal(l.total_failed as nat) + " failed | "@ + decimal(
            l.total_timed_out as nat,
        ) + " timed out | Avg "@ + avg_secs + "s | "@
            + spec_health(l) + " | Tools Used: "@ + decimal(l.total_tools_used as nat)
    }
}

/// The full dashboard, with `success_rate` the success rate in percent and
/// `avg_secs` the average duration in seconds, as the runtime writes them.
pub open spec fn spec_dashboard(l: AgentLifecycle, success_rate: Seq<char>, avg_secs: Seq<char>) -> Seq<char> {
    "## 🐝 Swarm Dashboard\n- **Total Spawned:** "@ + decimal(l.total_spawned as nat)
        + "\n- **Completed:** "@ + decimal(l.total_completed as nat) + " ("@
        + success_rate + "% success rate)\n- **Failed:** "@ + decimal(
        l.total_failed as nat,
    ) + "\n- **Timed Out:** "@ + decimal(l.total_timed_out as nat) + "\n- **Avg Duration:** "@
        + avg_secs + "s\n- **Total Tools Used:** "@ + decimal(
        l.total_tools_used as nat,
    ) + "\n- **Health:** "@ + spec_health(l)
}

impl AgentLifecycle {
    /// Fresh metrics, all counters at zero.
    pub fn new() -> (r: Self)
        ensures
            r.total_spawned == 0,
            r.total_completed == 0,
            r.total_failed == 0,
            r.total_timed_out == 0,
            r.total_duration_ms == 0,
            r.total_tools_used == 0,
    {
        AgentLifecycle {
            total_spawned: 0,
            total_completed: 0,
            total_failed: 0,
            total_timed_out: 0,
            total_duration_ms: 0,
            total_tools_used: 0,
        }
    }

    /// Record that a sub-agent was spawned.
    pub fn record_spawn(&mut self)
        ensures
            final(self).total_spawned == wrapping_add(old(self).total_spawned, 1),
            final(self).total_completed == old(self).total_completed,
            final(self).total_failed == old(self).total_failed,
            final(self).total_timed_out == old(self).total_timed_out,
            final(self).total_duration_ms == old(self).total_duration_ms,
            final(self).total_tools_used == old(self).total_tools_used,
    {
        self.total_spawned = self.total_spawned.wrapping_add(1);
    }

    /// Record a batch of `count` spawns.
    pub fn record_spawn_batch(&mut self, count: u64)
        ensures
            final(self).total_spawned == wrapping_add(old(self).total_spawned, count),
            final(self).total_completed == old(self).total_completed,
            final(self).total_failed == old(self).total_failed,
            final(self).total_timed_out == old(self).total_timed_out,
            final(self).total_duration_ms == old(self).total_duration_ms,
            final(self).total_tools_used == old(self).total_tools_used,
    {
        self.total_spawned = self.total_spawned.wrapping_add(count);
    }

    /// Record a successful completion that took `duration_ms` and used
    /// `tools_used` tools.
    pub fn record_completion(&mut self, duration_ms: u64, tools_used: usize)
        ensures
            final(self).total_completed == wrapping_add(old(self).total_completed, 1),
            final(self).total_duration_ms == wrapping_add(old(self).total_duration_ms, duration_ms),
            final(self).total_tools_used == wrapping_add(
                old(self).total_tools_used,
                tools_used as u64,
            ),
            final(self).total_spawned == old(self).total_spawned,
            final(self).total_failed == old(self).total_failed,
            final(self).total_timed_out == old(self).total_timed_out,
    {
        self.total_completed = self.total_completed.wrapping_add(1);
        self.total_duration_ms = self.total_duration_ms.wrapping_add(duration_ms);
        self.total_tools_used = self.total_tools_used.wrapping_add(tools_used as u64);
    }

    /// Record a failure.
    pub fn record_failure(&mut self)
        ensures
            final(self).total_failed == wrapping_add(old(self).total_failed, 1),
            final(self).total_spawned == old(self).total_spawned,
            final(self).total_completed == old(self).total_completed,
            final(self).total_timed_out == old(self).total_timed_out,
            final(self).total_duration_ms == old(self).total_duration_ms,
            final(self).total_tools_used == old(self).total_tools_used,
    {
        self.total_failed = self.total_failed.wrapping_add(1);
    }

    /// Record a time-out.
    pub fn record_timeout(&mut self)
        ensures
            final(self).total_timed_out == wrapping_add(old(self).total_timed_out, 1),
            final(self).total_spawned == old(self).total_spawned,
            final(self).total_completed == old(self).total_completed,
            final(self).total_failed == old(self).total_failed,
            final(self).total_duration_ms == old(self).total_duration_ms,
            final(self).total_tools_used == old(self).total_tools_used,
    {
        self.total_timed_out = self.total_timed_out.wrapping_add(1);
    }

    pub fn spawned(&self) -> (r: u64)
        ensures
            r == self.total_spawned,
    {
        self.total_spawned
    }

    pub fn completed(&self) -> (r: u64)
        ensures
            r == self.total_completed,
    {
        self.total_completed
    }

    pub fn failed(&self) -> (r: u64)
        ensures
            r == self.total_failed,
    {
        self.total_failed
    }

    pub fn timed_out(&self) -> (r: u64)
        ensures
            r == self.total_timed_out,
    {
        self.total_timed_out
    }

    /// Average duration of completed agents in ms, rounded down; 0 when none
    /// completed.
    pub fn avg_duration_ms(&self) -> (r: u64)
        ensures
            r == spec_avg_duration(*self),
    {
        let completed = self.completed();
        if completed == 0 {
            return 0;
        }
        self.total_duration_ms / completed
    }

    /// Health status: `HEALTHY` (success rate at least 80%, or nothing spawned),
    /// `DEGRADED` (at least 50%) or `CRITICAL`.
    pub fn health_status(&self) -> (r: &'static str)
        ensures
            r@ == spec_health(*self),
    {
        let spawned = self.total_spawned as u128;
        let completed = self.total_completed as u128;
        if spawned == 0 || 100 * completed >= 80 * spawned {
            "HEALTHY"
        } else if 100 * completed >= 50 * spawned {
            "DEGRADED"
        } else {
            "CRITICAL"
        }
    }

    /// A concise dashboard for the HUD.  The average duration is a float the
    /// runtime divides and formats (`{:.1}` of the milliseconds over 1000);
    /// `avg_secs` is that text.
    pub fn format_hud_line(&self, avg_secs: &str) -> (r: String)
        ensures
            r@ == spec_hud_line(*self, avg_secs@),
    {
        if self.total_spawned == 0 {
            return crate::text::owned("🐝 Swarm: No agents spawned this session");
        }
        let mut v: Vec<char> = Vec::new();
        append_str(&mut v, "🐝 Swarm: ");
        append_chars(&mut v, decimal_chars(self.total_spawned).as_slice());
        append_str(&mut v, " spawned | ");
        append_chars(&mut v, decimal_chars(self.total_completed).as_slice());
        append_str(&mut v, " completed | ");
        append_chars(&mut v, decimal_chars(self.total_failed).as_slice());
        append_str(&mut v, " failed | ");
        append_chars(&mut v, decimal_chars(self.total_timed_out).as_slice());
        append_str(&mut v, " timed out | Avg ");
        append_str(&mut v, avg_secs);
        append_str(&mut v, "s | ");
        append_str(&mut v, self.health_status());
        append_str(&mut v, " | Tools Used: ");
        append_chars(&mut v, decimal_chars(self.total_tools_used).as_slice());
        string_of(v.as_slice())
    }

    /// The full dashboard for the `agent_status` tool.  The success rate and
    /// the average duration are floats the runtime computes and formats with
    /// one decimal; `success_rate` and `avg_secs` are those texts.
    pub fn format_dashboard(&self, success_rate: &str, avg_secs: &str) -> (r: String)
        ensures
            r@ == spec_dashboard(*self, success_rate@, avg_secs@),
    {
        let mut v: Vec<char> = Vec::new();
        append_str(&mut v, "## 🐝 Swarm Dashboard\n- **Total Spawned:** ");
        append_chars(&mut v, decimal_chars(self.total_spawned).as_slice());
        append_str(&mut v, "\n- **Completed:** ");
        append_chars(&mut v, decimal_chars(self.total_completed).as_slice());
        append_str(&mut v, " (");
        append_str(&mut v, success_rate);
        append_str(&mut v, "% success rate)\n- **Failed:** ");
        append_chars(&mut v, decimal_chars(self.total_failed).as_slice());
        append_str(&mut v, "\n- **Timed Out:** ");
        append_chars(&mut v, decimal_chars(self.total_timed_out).as_slice());
        append_str(&mut v, "\n- **Avg Duration:** ");
        append_str(&mut v, avg_secs);
        append_str(&mut v, "s\n- **Total Tools Used:** ");
        append_chars(&mut v, decimal_chars(self.total_tools_used).as_slice());
        append_str(&mut v, "\n- **Health:** ");
        append_str(&mut v, self.health_status());
        string_of(v.as_slice())
    }
}

} // verus!
