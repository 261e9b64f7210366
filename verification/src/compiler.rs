//! The self-recompile tool: the decisions between its steps.  The test run,
//! the build, the change log on disk and the restart happen outside this
//! crate; each step's outcome comes back here and decides the next one.
use vstd::prelude::*;
use crate::fmt::{decimal, decimal_chars};
use crate::models::{tool_error, ToolError};
use crate::params::or_default;
use crate::process::{lines_of, text_lines};
use crate::tags::{extract_tag_chars, spec_extract_tag};
use crate::text::{append_chars, append_str, chars_of, owned, slice_copy, str_eq, string_of, trim, trim_exec};

verus! {

/// How the test suite that guards a rebuild ended.
pub enum TestRun {
    /// Every test passed.
    Passed,
    /// Some test failed; what the run printed.
    Failed { stdout: String, stderr: String },
    /// The test runner could not be started.
    NotRun { error: String },
    /// The run took longer than the time allowed.
    TimedOut,
}

/// How the release build ended.
pub enum BuildRun {
    /// The build succeeded.
    Succeeded,
    /// The compiler refused the code; what it printed.
    Failed { stderr: String },
    /// The build tool could not be started.
    NotRun { error: String },
}

/// What the tool does next.
pub enum RecompileAction {
    /// Run the test suite.
    RunTests,
    /// Record the change log and start the release build.
    Build,
    /// Put the new binary in place and restart: with the script that swaps
    /// it when not in a container, and then exit with `exit_code`.
    Restart { run_upgrade_script: bool, exit_code: i32 },
    /// Stop, answering with this failure.
    Fail(ToolError),
}

/// The view of an action: the failure's output and reason.
pub enum ActionSpec {
    RunTests,
    Build,
    Restart(bool, i32),
    Fail(Seq<char>, Seq<char>),
}

impl View for RecompileAction {
    type V = ActionSpec;

    open spec fn view(&self) -> ActionSpec {
        match self {
            RecompileAction::RunTests => ActionSpec::RunTests,
            RecompileAction::Build => ActionSpec::Build,
            RecompileAction::Restart { run_upgrade_script, exit_code } => ActionSpec::Restart(
                *run_upgrade_script,
                *exit_code,
            ),
            RecompileAction::Fail(e) => ActionSpec::Fail(e.output@, e.reason@),
        }
    }
}

pub const BAD_ACTION_TEXT: &'static str = "Error: Unrecognized tool intent action.";

/// The first action of a request: the tests, when the action (by default
/// `system_recompile`) is `system_recompile`; otherwise a refusal.
pub open spec fn spec_recompile_start(desc: Seq<char>) -> ActionSpec {
    if or_default(spec_extract_tag(desc, "action:"@), "system_recompile"@) == "system_recompile"@ {
        ActionSpec::RunTests
    } else {
        ActionSpec::Fail(BAD_ACTION_TEXT@, "Bad Action"@)
    }
}

/// The first action for the request `desc`.
pub fn recompile_start(desc: &str) -> (r: RecompileAction)
    ensures
        r@ == spec_recompile_start(desc@),
{
    let d = chars_of(desc);
    let g = chars_of("action:");
    let action = match extract_tag_chars(d.as_slice(), g.as_slice()) {
        Some(v) => string_of(v.as_slice()),
        None => owned("system_recompile"),
    };
    if str_eq(action.as_str(), "system_recompile") {
        RecompileAction::RunTests
    } else {
        RecompileAction::Fail(tool_error(BAD_ACTION_TEXT, "Bad Action"))
    }
}

/// At most the first `n` characters of `s`.
pub open spec fn first_chars(s: Seq<char>, n: nat) -> Seq<char> {
    if s.len() <= n {
        s
    } else {
        s.subrange(0, n as int)
    }
}

/// How much of each printed stream a failed test run reports.
pub const TEST_OUTPUT_CHARS: usize = 3000;

pub const TESTS_TIMED_OUT_TEXT: &'static str = "RECOMPILE ABORTED: Test suite timed out after 10 minutes. This may indicate a hanging test or missing dependencies.";

/// The test suite's outcome decides: the build goes on only after a passing
/// run; a failing run reports the first 3000 characters of each stream.
pub open spec fn spec_after_tests(run: TestRun) -> ActionSpec {
    match run {
        TestRun::Passed => ActionSpec::Build,
        TestRun::Failed { stdout, stderr } => ActionSpec::Fail(
            "RECOMPILE ABORTED: Test suite failed. Fix these failures before retrying.\n\nTest output:\n"@
                + first_chars(stdout@, 3000) + "\n"@ + first_chars(stderr@, 3000),
            "Tests Failed"@,
        ),
        TestRun::NotRun { error } => ActionSpec::Fail(
            "RECOMPILE ABORTED: Could not run cargo test: "@ + error@,
            "Test Runner Failure"@,
        ),
        TestRun::TimedOut => ActionSpec::Fail(TESTS_TIMED_OUT_TEXT@, "Test Timeout"@),
    }
}

fn first_chars_exec(s: &str, n: usize) -> (r: Vec<char>)
    ensures
        r@ == first_chars(s@, n as nat),
{
    let v = chars_of(s);
    if v.len() <= n {
        v
    } else {
        slice_copy(v.as_slice(), 0, n)
    }
}

/// The next action once the tests have run.
pub fn after_tests(run: &TestRun) -> (r: RecompileAction)
    ensures
        r@ == spec_after_tests(*run),
{
    match run {
        TestRun::Passed => RecompileAction::Build,
        TestRun::Failed { stdout, stderr } => {
            let mut o = chars_of(
                "RECOMPILE ABORTED: Test suite failed. Fix these failures before retrying.\n\nTest output:\n",
            );
            let a = first_chars_exec(stdout.as_str(), TEST_OUTPUT_CHARS);
            append_chars(&mut o, a.as_slice());
            append_str(&mut o, "\n");
            let b = first_chars_exec(stderr.as_str(), TEST_OUTPUT_CHARS);
            append_chars(&mut o, b.as_slice());
            RecompileAction::Fail(ToolError { output: string_of(o.as_slice()), reason: owned("Tests Failed") })
        },
        TestRun::NotRun { error } => {
            let mut o = chars_of("RECOMPILE ABORTED: Could not run cargo test: ");
            append_str(&mut o, error.as_str());
            RecompileAction::Fail(ToolError { output: string_of(o.as_slice()), reason: owned("Test Runner Failure") })
        },
        TestRun::TimedOut => RecompileAction::Fail(tool_error(TESTS_TIMED_OUT_TEXT, "Test Timeout")),
    }
}

/// The build's outcome decides: a successful build restarts the agent (with
/// the swap script outside a container, exiting 42 inside one so that its
/// entry point restarts it, 0 outside); a failed one reports why.
pub open spec fn spec_after_build(run: BuildRun, in_container: bool) -> ActionSpec {
    match run {
        BuildRun::Succeeded => ActionSpec::Restart(!in_container, if in_container { 42 } else { 0 }),
        BuildRun::Failed { stderr } => ActionSpec::Fail("Fatal compiler error:\n"@ + stderr@, "Compiler Error"@),
        BuildRun::NotRun { error } => ActionSpec::Fail(
            "Failed to invoke cargo binaries globally: "@ + error@,
            "Spawn Failure"@,
        ),
    }
}

/// The next action once the build has run.
pub fn after_build(run: &BuildRun, in_container: bool) -> (r: RecompileAction)
    ensures
        r@ == spec_after_build(*run, in_container),
{
    match run {
        BuildRun::Succeeded => RecompileAction::Restart {
            run_upgrade_script: !in_container,
            exit_code: if in_container { 42 } else { 0 },
        },
        BuildRun::Failed { stderr } => {
            let mut o = chars_of("Fatal compiler error:\n");
            append_str(&mut o, stderr.as_str());
            RecompileAction::Fail(ToolError { output: string_of(o.as_slice()), reason: owned("Compiler Error") })
        },
        BuildRun::NotRun { error } => {
            let mut o = chars_of("Failed to invoke cargo binaries globally: ");
            append_str(&mut o, error.as_str());
            RecompileAction::Fail(ToolError { output: string_of(o.as_slice()), reason: owned("Spawn Failure") })
        },
    }
}

/// One less than `n`, and no less than 0.
pub open spec fn less_one(n: nat) -> nat {
    if n == 0 {
        0
    } else {
        (n - 1) as nat
    }
}

/// What a rebuild means, from the change summary `diff`: an unchanged tree,
/// or the number of files changed (the summary's lines but its last).
pub open spec fn spec_explanation(diff: Seq<char>) -> Seq<char> {
    if trim(diff).len() == 0 {
        "The system rebuilt itself from unchanged source code (verification test)."@
    } else {
        "The system rebuilt itself after detecting code changes. "@ + decimal(less_one(text_lines(diff).len()))
            + " file(s) modified."@
    }
}

/// The change-log entry of a rebuild at `stamp`, with the change summary and
/// the recent commits.
pub open spec fn spec_changelog_entry(stamp: Seq<char>, diff: Seq<char>, log: Seq<char>) -> Seq<char> {
    "\n## Recompile — "@ + stamp + "\n\n**Code changes since last commit:**\n"@ + (if trim(diff).len() == 0 {
        "None — recompiling identical code."@
    } else {
        diff
    }) + "\n\n**Recent commits:**\n"@ + trim(log) + "\n\n**What this means:** "@ + spec_explanation(diff)
        + "\n\n---\n"@
}

/// The change-log entry of a rebuild.
pub fn changelog_entry(stamp: &str, diff: &str, log: &str) -> (r: String)
    ensures
        r@ == spec_changelog_entry(stamp@, diff@, log@),
{
    let dv = chars_of(diff);
    let unchanged = trim_exec(dv.as_slice()).len() == 0;
    let mut o = chars_of("\n## Recompile — ");
    append_str(&mut o, stamp);
    append_str(&mut o, "\n\n**Code changes since last commit:**\n");
    if unchanged {
        append_str(&mut o, "None — recompiling identical code.");
    } else {
        append_str(&mut o, diff);
    }
    append_str(&mut o, "\n\n**Recent commits:**\n");
    let lv = chars_of(log);
    let lt = trim_exec(lv.as_slice());
    append_chars(&mut o, lt.as_slice());
    append_str(&mut o, "\n\n**What this means:** ");
    if unchanged {
        append_str(&mut o, "The system rebuilt itself from unchanged source code (verification test).");
    } else {
        append_str(&mut o, "The system rebuilt itself after detecting code changes. ");
        let lines = lines_of(dv.as_slice());
        let n: usize = lines.len();
        let files: usize = if n == 0 { 0 } else { n - 1 };
        let digits = decimal_chars(files as u64);
        append_chars(&mut o, digits.as_slice());
        append_str(&mut o, " file(s) modified.");
    }
    append_str(&mut o, "\n\n---\n");
    string_of(o.as_slice())
}

/// The change log after a new entry: the entry is appended to what the log
/// held, or to a fresh heading when there was no log.
pub open spec fn spec_changelog_after(existing: Option<Seq<char>>, entry: Seq<char>) -> Seq<char> {
    or_default(existing, "# Self-Recompilation Log\n"@) + entry
}

/// The change log after a new entry.
pub fn changelog_after(existing: Option<String>, entry: &str) -> (r: String)
    ensures
        r@ == spec_changelog_after(
            match existing {
                Some(e) => Some(e@),
                None => None,
            },
            entry@,
        ),
{
    let mut o = match existing {
        Some(e) => chars_of(e.as_str()),
        None => chars_of("# Self-Recompilation Log\n"),
    };
    append_str(&mut o, entry);
    string_of(o.as_slice())
}

/// What the agent is told when it comes back after a successful rebuild.
pub const RESUME_MESSAGE: &'static str = "System recompile completed successfully. I have been upgraded and restarted. Resuming operations. Confirm to the user that the upgrade was successful.";

/// What the autonomy log records of a successful rebuild.
pub const RECOMPILE_SUMMARY: &'static str = "[SELF-RECOMPILE] Successfully compiled and hot-swapped binary. Tests passed. The system_recompile tool is confirmed working — do not test it again unless deploying new code changes.";

} // verus!
