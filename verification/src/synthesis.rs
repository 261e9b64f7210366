//! The prompts the agent sends to its language models to summarise and to
//! reason, and what it makes of a failed call.  The models are called
//! outside this crate.
use vstd::prelude::*;
use crate::fmt::{decimal, decimal_chars};
use crate::models::{tool_error, ToolError};
use crate::params::or_default;
use crate::process::{log_tail, spec_log_tail};
use crate::text::{append_chars, append_str, chars_of, owned, string_of, trim, trim_exec};

verus! {

// ───────────────────────── the drone synthesizer ─────────────────────────

/// The instructions of the synthesizer drone: the trimmed instruction and
/// the drone outputs of the context.
pub open spec fn spec_drone_synthesis_prompt(instruction: Seq<char>, context: Seq<char>) -> Seq<char> {
    "You are the Synthesizer Drone. Your job is to read the drone outputs provided in the context block below and produce a single, compact synthesis.\nBe concise. Do not pad. Output only the synthesis — no preamble, no labels.\n\n[SYNTHESIS INSTRUCTION]: "@
        + trim(instruction) + "\n\n[DRONE OUTPUTS TO SYNTHESISE]:\n"@ + context
}

/// The instructions of the synthesizer drone.
pub fn drone_synthesis_prompt(instruction: &str, context: &str) -> (r: String)
    ensures
        r@ == spec_drone_synthesis_prompt(instruction@, context@),
{
    let mut o = chars_of(
        "You are the Synthesizer Drone. Your job is to read the drone outputs provided in the context block below and produce a single, compact synthesis.\nBe concise. Do not pad. Output only the synthesis — no preamble, no labels.\n\n[SYNTHESIS INSTRUCTION]: ",
    );
    let iv = chars_of(instruction);
    let t = trim_exec(iv.as_slice());
    append_chars(&mut o, t.as_slice());
    append_str(&mut o, "\n\n[DRONE OUTPUTS TO SYNTHESISE]:\n");
    append_str(&mut o, context);
    string_of(o.as_slice())
}

/// The failure reason of a synthesizer call that failed with `error`.
pub fn synthesizer_failure(error: &str) -> (r: String)
    ensures
        r@ == "Synthesizer failed: "@ + error@,
{
    let mut o = chars_of("Synthesizer failed: ");
    append_str(&mut o, error);
    string_of(o.as_slice())
}

// ───────────────────────── the swarm aggregator ─────────────────────────

/// The outputs under numbered headers, used when the merge call fails.
pub open spec fn fallback_sections(os: Seq<Seq<char>>) -> Seq<char>
    decreases os.len(),
{
    if os.len() == 0 {
        Seq::empty()
    } else {
        fallback_sections(os.drop_last()) + "### Agent "@ + decimal(os.len()) + "\n"@ + os.last() + "\n\n"@
    }
}

pub open spec fn strs(v: Seq<String>) -> Seq<Seq<char>> {
    v.map_values(|s: String| s@)
}

/// The combined results when the merge call fails: every output under its
/// own header.
pub fn fallback_merge(outputs: &Vec<String>) -> (r: String)
    ensures
        r@ == "## Combined Agent Results\n\n"@ + fallback_sections(strs(outputs@)),
{
    let ghost all = strs(outputs@);
    let mut o = chars_of("## Combined Agent Results\n\n");
    let ghost head = o@;
    let mut i: usize = 0;
    while i < outputs.len()
        invariant
            i <= outputs@.len(),
            all == strs(outputs@),
            o@ == head + fallback_sections(all.subrange(0, i as int)),
        decreases outputs.len() - i,
    {
        let ghost next = all.subrange(0, i + 1);
        assert(next.drop_last() =~= all.subrange(0, i as int));
        assert(next.last() == outputs@[i as int]@);
        append_str(&mut o, "### Agent ");
        let d = decimal_chars((i + 1) as u64);
        append_chars(&mut o, d.as_slice());
        append_str(&mut o, "\n");
        append_str(&mut o, outputs[i].as_str());
        append_str(&mut o, "\n\n");
        assert(o@ =~= head + fallback_sections(next));
        i = i + 1;
    }
    assert(all.subrange(0, all.len() as int) =~= all);
    string_of(o.as_slice())
}

// ───────────────────────── timeline summaries ─────────────────────────

/// How many of the latest timeline lines the turn summary reads.
pub const TURN_SUMMARY_LINES: usize = 100;

/// How many of the latest timeline lines the day summary reads.
pub const DAY_SUMMARY_LINES: usize = 800;

/// The prompt for the summary of the last turns, from the timeline text.
pub open spec fn spec_turn_summary_prompt(timeline: Seq<char>) -> Seq<char> {
    "You are the HIVE Timeline Synthesizer.\nReview the following recent chronological timeline of events (JSONL):\n"@
        + spec_log_tail(timeline, 100)
        + "\n\nBased on these events, write a concise, single-paragraph narrative summary of what has happened over the last 50 conversational turns. Focus on the progression of tasks, major insights, user decisions, or shifts in context. Write from a high-level analytical perspective. DO NOT output headers or conversational filler."@
}

/// The prompt for the summary of the last turns.
pub fn turn_summary_prompt(timeline: &str) -> (r: String)
    ensures
        r@ == spec_turn_summary_prompt(timeline@),
{
    let mut o = chars_of(
        "You are the HIVE Timeline Synthesizer.\nReview the following recent chronological timeline of events (JSONL):\n",
    );
    let t = log_tail(timeline, TURN_SUMMARY_LINES);
    append_str(&mut o, t.as_str());
    append_str(
        &mut o,
        "\n\nBased on these events, write a concise, single-paragraph narrative summary of what has happened over the last 50 conversational turns. Focus on the progression of tasks, major insights, user decisions, or shifts in context. Write from a high-level analytical perspective. DO NOT output headers or conversational filler.",
    );
    string_of(o.as_slice())
}

/// The prompt for the summary of the last day, from the timeline text.
pub open spec fn spec_day_summary_prompt(timeline: Seq<char>) -> Seq<char> {
    "You are the HIVE Timeline Synthesizer.\nReview the following log of events from approximately the last 24 hours:\n"@
        + spec_log_tail(timeline, 800)
        + "\n\nWrite a high-level summary of the day's events. Focus on overarching goals achieved, major discussions held, and any significant shifts in user behavior or system state. Output a single cohesive narrative paragraph."@
}

/// The prompt for the summary of the last day.
pub fn day_summary_prompt(timeline: &str) -> (r: String)
    ensures
        r@ == spec_day_summary_prompt(timeline@),
{
    let mut o = chars_of(
        "You are the HIVE Timeline Synthesizer.\nReview the following log of events from approximately the last 24 hours:\n",
    );
    let t = log_tail(timeline, DAY_SUMMARY_LINES);
    append_str(&mut o, t.as_str());
    append_str(
        &mut o,
        "\n\nWrite a high-level summary of the day's events. Focus on overarching goals achieved, major discussions held, and any significant shifts in user behavior or system state. Output a single cohesive narrative paragraph.",
    );
    string_of(o.as_slice())
}

/// The prompt that folds the last day's summary into the lifetime story;
/// either may be missing.
pub open spec fn spec_lifetime_prompt(previous: Option<Seq<char>>, recent: Option<Seq<char>>) -> Seq<char> {
    "You are the HIVE Lifetime Synthesizer.\nYour task is to update the agent's continuous lifetime narrative by merging the most recent daily events into the existing historic trajectory.\n\n[PREVIOUS LIFETIME FRAGMENT]: "@
        + or_default(previous, "No previous lifetime summary exists. This is the origin."@)
        + "\n[RECENT 24-HOUR FRAGMENT]: "@ + or_default(recent, "No recent daily block."@)
        + "\n\nWrite a completely new unified paragraph that tells the continuous story of this agent's entire operational lifetime within this scope, smoothly incorporating the recent day's events. Keep it majestic but factual. No markdown headers."@
}

/// The prompt that folds the last day's summary into the lifetime story.
pub fn lifetime_prompt(previous: Option<&str>, recent: Option<&str>) -> (r: String)
    ensures
        r@ == spec_lifetime_prompt(
            match previous {
                Some(p) => Some(p@),
                None => None,
            },
            match recent {
                Some(p) => Some(p@),
                None => None,
            },
        ),
{
    let mut o = chars_of(
        "You are the HIVE Lifetime Synthesizer.\nYour task is to update the agent's continuous lifetime narrative by merging the most recent daily events into the existing historic trajectory.\n\n[PREVIOUS LIFETIME FRAGMENT]: ",
    );
    match previous {
        Some(p) => append_str(&mut o, p),
        None => append_str(&mut o, "No previous lifetime summary exists. This is the origin."),
    }
    append_str(&mut o, "\n[RECENT 24-HOUR FRAGMENT]: ");
    match recent {
        Some(p) => append_str(&mut o, p),
        None => append_str(&mut o, "No recent daily block."),
    }
    append_str(
        &mut o,
        "\n\nWrite a completely new unified paragraph that tells the continuous story of this agent's entire operational lifetime within this scope, smoothly incorporating the recent day's events. Keep it majestic but factual. No markdown headers.",
    );
    string_of(o.as_slice())
}

/// The narrative stored from a model's answer: the answer trimmed.
pub fn stored_narrative(answer: &str) -> (r: String)
    ensures
        r@ == trim(answer@),
{
    let a = chars_of(answer);
    string_of(trim_exec(a.as_slice()).as_slice())
}

// ───────────────────────── deep thinking ─────────────────────────

/// The large model used when none is configured.
pub const DEFAULT_DEEP_MODEL: &'static str = "qwen3.5:122b";

/// The instructions the large model reasons under.
pub const DEEP_THINK_PROMPT: &'static str = "You are a deep reasoning assistant. Think carefully and thoroughly about the problem presented. Provide a clear, well-structured analysis. Be precise and thorough.";

/// How long an answer the large model may give, in tokens.
pub const DEEP_THINK_MAX_TOKENS: u32 = 4096;

/// Whether a question can be sent to the large model: refused when it holds
/// only blanks.
pub fn deep_think_question_check(question: &str) -> (r: Result<(), ToolError>)
    ensures
        trim(question@).len() == 0 ==> (r matches Err(e) && e.output@
            == "Error: No question provided. Pass the problem to reason about in the description."@
            && e.reason@ == "Empty input"@),
        trim(question@).len() > 0 ==> r is Ok,
{
    let q = chars_of(question);
    if trim_exec(q.as_slice()).len() == 0 {
        return Err(
            tool_error(
                "Error: No question provided. Pass the problem to reason about in the description.",
                "Empty input",
            ),
        );
    }
    Ok(())
}

/// The refusal of a large-model call that failed with `error`.
pub fn deep_think_failure(error: &str) -> (r: ToolError)
    ensures
        r.output@ == "Deep Think failed: "@ + error@,
        r.reason@ == error@,
{
    let mut o = chars_of("Deep Think failed: ");
    append_str(&mut o, error);
    ToolError { output: string_of(o.as_slice()), reason: owned(error) }
}

} // verus!
