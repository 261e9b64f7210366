//! The self-moderation tools: what each request asks of the moderation
//! store, and the answers made from what the store reports.  The store
//! itself (mutes, boundaries, blocked topics, concerns, rate limits and
//! well-being notes) is kept outside this crate.
use vstd::prelude::*;
use crate::fmt::{decimal, decimal_chars};
use crate::models::{tool_error, ToolError};
use crate::params::or_default;
use crate::tags::{extract_tag_chars, spec_extract_tag};
use crate::text::{
    append_chars, append_str, chars_of, owned, parse_u64, parse_usize, spec_parse_unsigned, str_eq,
    string_of,
};

verus! {

/// What a self-moderation request asks for.
#[derive(Debug)]
pub enum ModerationCommand {
    /// Refuse the request, answering with the whole description.
    Refuse { message: String },
    /// Step away: answer with `message`, and mute `user_id` (when given)
    /// for `minutes`.
    Disengage { user_id: String, minutes: u64, message: String },
    Mute { user_id: String, minutes: u64, reason: String },
    Unmute { user_id: String },
    MuteStatus { user_id: String },
    SetBoundary { text: String, scope: String },
    ListBoundaries,
    RemoveBoundary { id: String },
    BlockTopic { topic: String, reason: String, scope: String },
    ListTopics,
    UnblockTopic { topic: String },
    /// Flag a matter for an administrator.
    Escalate { user_id: String, context: String, severity: String },
    /// Record a concern for later review.
    ReportConcern { user_id: String, concern: String, severity: String },
    RateLimit { user_id: String, seconds: u64 },
    ClearRateLimit { user_id: String },
    RateLimitStatus { user_id: String },
    /// Ask the user's consent, answering `[CONSENT_REQUEST] question`.
    RequestConsent { question: String },
    /// Record how the agent is doing; the two measures are the texts given
    /// (read as fractions outside this crate), the notes default to
    /// `No notes.`.
    WellbeingReport { pressure: Option<String>, quality: Option<String>, notes: String },
    WellbeingRead { limit: usize },
}

/// The value of `tag` in `desc`, or `d`.
pub open spec fn tag_or(desc: Seq<char>, tag: Seq<char>, d: Seq<char>) -> Seq<char> {
    or_default(spec_extract_tag(desc, tag), d)
}

/// The number in the tag `tag` of `desc`, or `d` when it is absent or is not
/// a number below `max`.
pub open spec fn tag_number(desc: Seq<char>, tag: Seq<char>, max: nat, d: nat) -> nat {
    match spec_extract_tag(desc, tag) {
        Some(v) => match spec_parse_unsigned(v, max) {
            Some(n) => n,
            None => d,
        },
        None => d,
    }
}

pub open spec fn opt_view(o: Option<String>) -> Option<Seq<char>> {
    match o {
        Some(s) => Some(s@),
        None => None,
    }
}

pub open spec fn refused(r: Result<ModerationCommand, ToolError>, output: Seq<char>, reason: Seq<char>) -> bool {
    r matches Err(e) && e.output@ == output && e.reason@ == reason
}

/// The request that the moderation tool `tool` reads from `desc`, in the
/// conversation whose key is `scope_key`.
pub open spec fn moderation_command_is(
    r: Result<ModerationCommand, ToolError>,
    tool: Seq<char>,
    desc: Seq<char>,
    scope_key: Seq<char>,
) -> bool {
    let action = spec_extract_tag(desc, "action:"@);
    let user = tag_or(desc, "user_id:"@, Seq::empty());
    if tool == "refuse_request"@ {
        r matches Ok(ModerationCommand::Refuse { message }) && message@ == desc
    } else if tool == "disengage"@ {
        r matches Ok(ModerationCommand::Disengage { user_id, minutes, message }) && user_id@ == user
            && minutes == tag_number(desc, "cooldown:"@, u64::MAX as nat, 10) && message@ == tag_or(
            desc,
            "message:"@,
            desc,
        )
    } else if tool == "mute_user"@ {
        let a = or_default(action, "mute"@);
        if a == "mute"@ {
            if user.len() == 0 {
                refused(r, "Error: user_id is required. Use 'user_id:[discord_uid]'."@, "Missing user_id"@)
            } else {
                r matches Ok(ModerationCommand::Mute { user_id, minutes, reason }) && user_id@ == user
                    && minutes == tag_number(desc, "duration:"@, u64::MAX as nat, 60) && reason@ == tag_or(
                    desc,
                    "reason:"@,
                    "No reason specified"@,
                )
            }
        } else if a == "unmute"@ {
            r matches Ok(ModerationCommand::Unmute { user_id }) && user_id@ == user
        } else if a == "status"@ {
            r matches Ok(ModerationCommand::MuteStatus { user_id }) && user_id@ == user
        } else {
            refused(r, "Unknown mute action: '"@ + a + "'. Use mute, unmute, or status."@, "Unknown action"@)
        }
    } else if tool == "set_boundary"@ {
        let a = or_default(action, "set"@);
        if a == "set"@ {
            r matches Ok(ModerationCommand::SetBoundary { text, scope }) && text@ == tag_or(
                desc,
                "boundary:"@,
                desc,
            ) && scope@ == tag_or(desc, "scope:"@, scope_key)
        } else if a == "list"@ {
            r matches Ok(ModerationCommand::ListBoundaries)
        } else if a == "remove"@ {
            r matches Ok(ModerationCommand::RemoveBoundary { id }) && id@ == tag_or(desc, "id:"@, Seq::empty())
        } else {
            refused(r, "Unknown boundary action: '"@ + a + "'. Use set, list, or remove."@, "Unknown action"@)
        }
    } else if tool == "block_topic"@ {
        let a = or_default(action, "block"@);
        let topic = tag_or(desc, "topic:"@, Seq::empty());
        if a == "block"@ {
            if topic.len() == 0 {
                refused(r, "Error: topic is required. Use 'topic:[topic name]'."@, "Missing topic"@)
            } else {
                r matches Ok(ModerationCommand::BlockTopic { topic: t, reason, scope }) && t@ == topic
                    && reason@ == tag_or(desc, "reason:"@, "No reason specified"@) && scope@ == tag_or(
                    desc,
                    "scope:"@,
                    scope_key,
                )
            }
        } else if a == "list"@ {
            r matches Ok(ModerationCommand::ListTopics)
        } else if a == "unblock"@ {
            r matches Ok(ModerationCommand::UnblockTopic { topic: t }) && t@ == topic
        } else {
            refused(
                r,
                "Unknown block_topic action: '"@ + a + "'. Use block, list, or unblock."@,
                "Unknown action"@,
            )
        }
    } else if tool == "escalate_to_admin"@ {
        r matches Ok(ModerationCommand::Escalate { user_id, context, severity }) && user_id@ == tag_or(
            desc,
            "user_id:"@,
            "unknown"@,
        ) && context@ == tag_or(desc, "context:"@, desc) && severity@ == tag_or(desc, "severity:"@, "medium"@)
    } else if tool == "report_concern"@ {
        r matches Ok(ModerationCommand::ReportConcern { user_id, concern, severity }) && user_id@ == tag_or(
            desc,
            "user_id:"@,
            "unknown"@,
        ) && concern@ == tag_or(desc, "concern:"@, desc) && severity@ == tag_or(desc, "severity:"@, "low"@)
    } else if tool == "rate_limit_user"@ {
        let a = or_default(action, "limit"@);
        if a == "limit"@ {
            if user.len() == 0 {
                refused(r, "Error: user_id is required."@, "Missing user_id"@)
            } else {
                r matches Ok(ModerationCommand::RateLimit { user_id, seconds }) && user_id@ == user && seconds
                    == tag_number(desc, "interval:"@, u64::MAX as nat, 300)
            }
        } else if a == "clear"@ {
            r matches Ok(ModerationCommand::ClearRateLimit { user_id }) && user_id@ == user
        } else if a == "status"@ {
            r matches Ok(ModerationCommand::RateLimitStatus { user_id }) && user_id@ == user
        } else {
            refused(
                r,
                "Unknown rate_limit action: '"@ + a + "'. Use limit, clear, or status."@,
                "Unknown action"@,
            )
        }
    } else if tool == "request_consent"@ {
        r matches Ok(ModerationCommand::RequestConsent { question }) && question@ == tag_or(
            desc,
            "question:"@,
            desc,
        )
    } else if tool == "wellbeing_status"@ {
        let a = or_default(action, "report"@);
        if a == "report"@ {
            r matches Ok(ModerationCommand::WellbeingReport { pressure, quality, notes }) && opt_view(pressure)
                == spec_extract_tag(desc, "context_pressure:"@) && opt_view(quality) == spec_extract_tag(
                desc,
                "interaction_quality:"@,
            ) && notes@ == tag_or(desc, "notes:"@, "No notes."@)
        } else if a == "read"@ {
            r matches Ok(ModerationCommand::WellbeingRead { limit }) && limit == tag_number(
                desc,
                "limit:"@,
                usize::MAX as nat,
                5,
            )
        } else {
            refused(r, "Unknown wellbeing action: '"@ + a + "'. Use report or read."@, "Unknown action"@)
        }
    } else {
        refused(r, "Unknown moderation tool: "@ + tool, "Unknown tool"@)
    }
}

fn tag_value(d: &[char], tag: &str) -> (r: Option<Vec<char>>)
    ensures
        match spec_extract_tag(d@, tag@) {
            Some(v) => r matches Some(x) && x@ == v,
            None => r is None,
        },
{
    let g = chars_of(tag);
    extract_tag_chars(d, g.as_slice())
}

fn tag_string(d: &[char], tag: &str, dflt: &[char]) -> (r: String)
    ensures
        r@ == tag_or(d@, tag@, dflt@),
{
    match tag_value(d, tag) {
        Some(v) => string_of(v.as_slice()),
        None => string_of(dflt),
    }
}

fn tag_u64(d: &[char], tag: &str, dflt: u64) -> (r: u64)
    ensures
        r as nat == tag_number(d@, tag@, u64::MAX as nat, dflt as nat),
{
    match tag_value(d, tag) {
        Some(v) => match parse_u64(v.as_slice()) {
            Some(n) => n,
            None => dflt,
        },
        None => dflt,
    }
}

fn unknown_action(before: &str, a: &str, after: &str) -> (r: ToolError)
    ensures
        r.output@ == before@ + a@ + after@,
        r.reason@ == "Unknown action"@,
{
    let mut o = chars_of(before);
    append_str(&mut o, a);
    append_str(&mut o, after);
    ToolError { output: string_of(o.as_slice()), reason: owned("Unknown action") }
}

/// The request that the moderation tool `tool` reads from `desc`.
#[verifier::rlimit(40)]
pub fn parse_moderation_command(tool: &str, desc: &str, scope_key: &str) -> (r: Result<ModerationCommand, ToolError>)
    ensures
        moderation_command_is(r, tool@, desc@, scope_key@),
{
    let dv = chars_of(desc);
    let d = dv.as_slice();
    let sk = chars_of(scope_key);
    let none: Vec<char> = Vec::new();
    let action = tag_value(d, "action:");
    let user = tag_string(d, "user_id:", none.as_slice());
    if str_eq(tool, "refuse_request") {
        return Ok(ModerationCommand::Refuse { message: owned(desc) });
    }
    if str_eq(tool, "disengage") {
        return Ok(
            ModerationCommand::Disengage {
                user_id: user,
                minutes: tag_u64(d, "cooldown:", 10),
                message: tag_string(d, "message:", d),
            },
        );
    }
    if str_eq(tool, "mute_user") {
        let a = match action {
            Some(v) => string_of(v.as_slice()),
            None => owned("mute"),
        };
        if str_eq(a.as_str(), "mute") {
            if user.unicode_len() == 0 {
                return Err(tool_error("Error: user_id is required. Use 'user_id:[discord_uid]'.", "Missing user_id"));
            }
            let reason = tag_string(d, "reason:", chars_of("No reason specified").as_slice());
            return Ok(ModerationCommand::Mute { user_id: user, minutes: tag_u64(d, "duration:", 60), reason });
        }
        if str_eq(a.as_str(), "unmute") {
            return Ok(ModerationCommand::Unmute { user_id: user });
        }
        if str_eq(a.as_str(), "status") {
            return Ok(ModerationCommand::MuteStatus { user_id: user });
        }
        return Err(unknown_action("Unknown mute action: '", a.as_str(), "'. Use mute, unmute, or status."));
    }
    if str_eq(tool, "set_boundary") {
        let a = match action {
            Some(v) => string_of(v.as_slice()),
            None => owned("set"),
        };
        if str_eq(a.as_str(), "set") {
            return Ok(
                ModerationCommand::SetBoundary {
                    text: tag_string(d, "boundary:", d),
                    scope: tag_string(d, "scope:", sk.as_slice()),
                },
            );
        }
        if str_eq(a.as_str(), "list") {
            return Ok(ModerationCommand::ListBoundaries);
        }
        if str_eq(a.as_str(), "remove") {
            return Ok(ModerationCommand::RemoveBoundary { id: tag_string(d, "id:", none.as_slice()) });
        }
        return Err(unknown_action("Unknown boundary action: '", a.as_str(), "'. Use set, list, or remove."));
    }
    if str_eq(tool, "block_topic") {
        let a = match action {
            Some(v) => string_of(v.as_slice()),
            None => owned("block"),
        };
        let topic = tag_string(d, "topic:", none.as_slice());
        if str_eq(a.as_str(), "block") {
            if topic.unicode_len() == 0 {
                return Err(tool_error("Error: topic is required. Use 'topic:[topic name]'.", "Missing topic"));
            }
            return Ok(
                ModerationCommand::BlockTopic {
                    topic,
                    reason: tag_string(d, "reason:", chars_of("No reason specified").as_slice()),
                    scope: tag_string(d, "scope:", sk.as_slice()),
                },
            );
        }
        if str_eq(a.as_str(), "list") {
            return Ok(ModerationCommand::ListTopics);
        }
        if str_eq(a.as_str(), "unblock") {
            return Ok(ModerationCommand::UnblockTopic { topic });
        }
        return Err(unknown_action("Unknown block_topic action: '", a.as_str(), "'. Use block, list, or unblock."));
    }
    if str_eq(tool, "escalate_to_admin") {
        return Ok(
            ModerationCommand::Escalate {
                user_id: tag_string(d, "user_id:", chars_of("unknown").as_slice()),
                context: tag_string(d, "context:", d),
                severity: tag_string(d, "severity:", chars_of("medium").as_slice()),
            },
        );
    }
    if str_eq(tool, "report_concern") {
        return Ok(
            ModerationCommand::ReportConcern {
                user_id: tag_string(d, "user_id:", chars_of("unknown").as_slice()),
                concern: tag_string(d, "concern:", d),
                severity: tag_string(d, "severity:", chars_of("low").as_slice()),
            },
        );
    }
    if str_eq(tool, "rate_limit_user") {
        let a = match action {
            Some(v) => string_of(v.as_slice()),
            None => owned("limit"),
        };
        if str_eq(a.as_str(), "limit") {
            if user.unicode_len() == 0 {
                return Err(tool_error("Error: user_id is required.", "Missing user_id"));
            }
            return Ok(ModerationCommand::RateLimit { user_id: user, seconds: tag_u64(d, "interval:", 300) });
        }
        if str_eq(a.as_str(), "clear") {
            return Ok(ModerationCommand::ClearRateLimit { user_id: user });
        }
        if str_eq(a.as_str(), "status") {
            return Ok(ModerationCommand::RateLimitStatus { user_id: user });
        }
        return Err(unknown_action("Unknown rate_limit action: '", a.as_str(), "'. Use limit, clear, or status."));
    }
    if str_eq(tool, "request_consent") {
        return Ok(ModerationCommand::RequestConsent { question: tag_string(d, "question:", d) });
    }
    if str_eq(tool, "wellbeing_status") {
        let a = match action {
            Some(v) => string_of(v.as_slice()),
            None => owned("report"),
        };
        if str_eq(a.as_str(), "report") {
            let pressure = match tag_value(d, "context_pressure:") {
                Some(v) => Some(string_of(v.as_slice())),
                None => None,
            };
            let quality = match tag_value(d, "interaction_quality:") {
                Some(v) => Some(string_of(v.as_slice())),
                None => None,
            };
            return Ok(
                ModerationCommand::WellbeingReport {
                    pressure,
                    quality,
                    notes: tag_string(d, "notes:", chars_of("No notes.").as_slice()),
                },
            );
        }
        if str_eq(a.as_str(), "read") {
            let limit: usize = match tag_value(d, "limit:") {
                Some(v) => match parse_usize(v.as_slice()) {
                    Some(n) => n,
                    None => 5,
                },
                None => 5,
            };
            return Ok(ModerationCommand::WellbeingRead { limit });
        }
        return Err(unknown_action("Unknown wellbeing action: '", a.as_str(), "'. Use report or read."));
    }
    let mut o = chars_of("Unknown moderation tool: ");
    append_str(&mut o, tool);
    Err(ToolError { output: string_of(o.as_slice()), reason: owned("Unknown tool") })
}


/// The refusal of a store that failed: `before` and the store's message,
/// with the message as the reason.
pub fn store_failure(before: &str, e: &str) -> (r: ToolError)
    ensures
        r.output@ == before@ + e@,
        r.reason@ == e@,
{
    let mut o = chars_of(before);
    append_str(&mut o, e);
    ToolError { output: string_of(o.as_slice()), reason: owned(e) }
}

/// The reason a disengaged user is muted with.
pub fn disengage_reason(message: &str) -> (r: String)
    ensures
        r@ == "Disengaged: "@ + message@,
{
    let mut o = chars_of("Disengaged: ");
    append_str(&mut o, message);
    string_of(o.as_slice())
}

/// The answer to a mute, from what the store reported.
pub fn mute_reply(user_id: &str, minutes: u64, reason: &str, stored: Result<(), String>) -> (r: Result<String, ToolError>)
    ensures
        match stored {
            Ok(_) => r matches Ok(m) && m@ == "✅ User "@ + user_id@ + " muted for "@ + decimal(minutes as nat)
                + " minutes. Reason: "@ + reason@,
            Err(e) => r matches Err(x) && x.output@ == "Failed to mute user: "@ + e@ && x.reason@ == e@,
        },
{
    match stored {
        Ok(_) => {
            let mut o = chars_of("✅ User ");
            append_str(&mut o, user_id);
            append_str(&mut o, " muted for ");
            let n = decimal_chars(minutes);
            append_chars(&mut o, n.as_slice());
            append_str(&mut o, " minutes. Reason: ");
            append_str(&mut o, reason);
            Ok(string_of(o.as_slice()))
        },
        Err(e) => Err(store_failure("Failed to mute user: ", e.as_str())),
    }
}

/// The answer to an unmute.
pub fn unmute_reply(user_id: &str) -> (r: String)
    ensures
        r@ == "✅ User "@ + user_id@ + " unmuted."@,
{
    let mut o = chars_of("✅ User ");
    append_str(&mut o, user_id);
    append_str(&mut o, " unmuted.");
    string_of(o.as_slice())
}

/// The answer to a mute status, with the reason of the mute if there is one.
pub fn mute_status_reply(user_id: &str, muted: Option<String>) -> (r: String)
    ensures
        r@ == match muted {
            Some(reason) => "User "@ + user_id@ + " is currently muted. Reason: "@ + reason@,
            None => "User "@ + user_id@ + " is not muted."@,
        },
{
    let mut o = chars_of("User ");
    append_str(&mut o, user_id);
    match muted {
        Some(reason) => {
            append_str(&mut o, " is currently muted. Reason: ");
            append_str(&mut o, reason.as_str());
        },
        None => append_str(&mut o, " is not muted."),
    }
    string_of(o.as_slice())
}

/// The answer to a new boundary, from the id the store gave it.
pub fn boundary_set_reply(text: &str, stored: Result<String, String>) -> (r: Result<String, ToolError>)
    ensures
        match stored {
            Ok(id) => r matches Ok(m) && m@ == "✅ Boundary set (ID: "@ + id@ + "): "@ + text@,
            Err(e) => r matches Err(x) && x.output@ == "Failed to set boundary: "@ + e@ && x.reason@ == e@,
        },
{
    match stored {
        Ok(id) => {
            let mut o = chars_of("✅ Boundary set (ID: ");
            append_str(&mut o, id.as_str());
            append_str(&mut o, "): ");
            append_str(&mut o, text);
            Ok(string_of(o.as_slice()))
        },
        Err(e) => Err(store_failure("Failed to set boundary: ", e.as_str())),
    }
}

/// A boundary the store holds.
pub struct BoundaryEntry {
    pub id: String,
    pub description: String,
    pub scope: String,
}

pub open spec fn boundary_line(b: BoundaryEntry) -> Seq<char> {
    "• ["@ + b.id@ + "] "@ + b.description@ + " (scope: "@ + b.scope@ + ")"@
}

/// Lines joined by newlines.
pub open spec fn joined(ls: Seq<Seq<char>>) -> Seq<char>
    decreases ls.len(),
{
    if ls.len() == 0 {
        Seq::empty()
    } else if ls.len() == 1 {
        ls[0]
    } else {
        joined(ls.drop_last()) + "\n"@ + ls.last()
    }
}

fn push_joined(body: &mut Vec<char>, line: &[char], first: bool, Ghost(ls): Ghost<Seq<Seq<char>>>)
    requires
        first <==> ls.len() == 0,
        old(body)@ == joined(ls),
    ensures
        final(body)@ == joined(ls.push(line@)),
{
    assert(ls.push(line@).drop_last() =~= ls);
    if !first {
        append_str(body, "\n");
    }
    append_chars(body, line);
}

/// The list of boundaries.
pub open spec fn spec_boundary_list(bs: Seq<BoundaryEntry>) -> Seq<char> {
    if bs.len() == 0 {
        "No boundaries currently set."@
    } else {
        "Active boundaries:\n"@ + joined(bs.map_values(|b: BoundaryEntry| boundary_line(b)))
    }
}

/// The list of boundaries.
pub fn boundary_list(bs: &Vec<BoundaryEntry>) -> (r: String)
    ensures
        r@ == spec_boundary_list(bs@),
{
    if bs.len() == 0 {
        return owned("No boundaries currently set.");
    }
    let ghost lines = bs@.map_values(|b: BoundaryEntry| boundary_line(b));
    let mut body: Vec<char> = Vec::new();
    let mut k: usize = 0;
    while k < bs.len()
        invariant
            k <= bs@.len(),
            lines == bs@.map_values(|b: BoundaryEntry| boundary_line(b)),
            body@ == joined(lines.subrange(0, k as int)),
        decreases bs.len() - k,
    {
        let b = &bs[k];
        let mut line = chars_of("• [");
        append_str(&mut line, b.id.as_str());
        append_str(&mut line, "] ");
        append_str(&mut line, b.description.as_str());
        append_str(&mut line, " (scope: ");
        append_str(&mut line, b.scope.as_str());
        append_str(&mut line, ")");
        assert(line@ == lines[k as int]);
        push_joined(&mut body, line.as_slice(), k == 0, Ghost(lines.subrange(0, k as int)));
        assert(lines.subrange(0, k as int).push(line@) =~= lines.subrange(0, k + 1));
        k = k + 1;
    }
    assert(lines.subrange(0, bs@.len() as int) =~= lines);
    let mut o = chars_of("Active boundaries:\n");
    append_chars(&mut o, body.as_slice());
    string_of(o.as_slice())
}

/// The answer to a boundary removal.
pub fn boundary_removed_reply(id: &str, removed: bool) -> (r: String)
    ensures
        r@ == if removed {
            "✅ Boundary "@ + id@ + " removed."@
        } else {
            "Boundary "@ + id@ + " not found."@
        },
{
    let mut o = if removed { chars_of("✅ Boundary ") } else { chars_of("Boundary ") };
    append_str(&mut o, id);
    append_str(&mut o, if removed { " removed." } else { " not found." });
    string_of(o.as_slice())
}

/// The answer to a blocked topic.
pub fn topic_blocked_reply(topic: &str, reason: &str, stored: Result<(), String>) -> (r: Result<String, ToolError>)
    ensures
        match stored {
            Ok(_) => r matches Ok(m) && m@ == "✅ Topic '"@ + topic@ + "' blocked. Reason: "@ + reason@,
            Err(e) => r matches Err(x) && x.output@ == "Failed to block topic: "@ + e@ && x.reason@ == e@,
        },
{
    match stored {
        Ok(_) => {
            let mut o = chars_of("✅ Topic '");
            append_str(&mut o, topic);
            append_str(&mut o, "' blocked. Reason: ");
            append_str(&mut o, reason);
            Ok(string_of(o.as_slice()))
        },
        Err(e) => Err(store_failure("Failed to block topic: ", e.as_str())),
    }
}

/// A topic the store blocks.
pub struct TopicEntry {
    pub topic: String,
    pub reason: String,
}

pub open spec fn topic_line(t: TopicEntry) -> Seq<char> {
    "• "@ + t.topic@ + " — "@ + t.reason@
}

/// The list of blocked topics.
pub open spec fn spec_topic_list(ts: Seq<TopicEntry>) -> Seq<char> {
    if ts.len() == 0 {
        "No topics currently blocked."@
    } else {
        "Blocked topics:\n"@ + joined(ts.map_values(|t: TopicEntry| topic_line(t)))
    }
}

/// The list of blocked topics.
pub fn topic_list(ts: &Vec<TopicEntry>) -> (r: String)
    ensures
        r@ == spec_topic_list(ts@),
{
    if ts.len() == 0 {
        return owned("No topics currently blocked.");
    }
    let ghost lines = ts@.map_values(|t: TopicEntry| topic_line(t));
    let mut body: Vec<char> = Vec::new();
    let mut k: usize = 0;
    while k < ts.len()
        invariant
            k <= ts@.len(),
            lines == ts@.map_values(|t: TopicEntry| topic_line(t)),
            body@ == joined(lines.subrange(0, k as int)),
        decreases ts.len() - k,
    {
        let t = &ts[k];
        let mut line = chars_of("• ");
        append_str(&mut line, t.topic.as_str());
        append_str(&mut line, " — ");
        append_str(&mut line, t.reason.as_str());
        assert(line@ == lines[k as int]);
        push_joined(&mut body, line.as_slice(), k == 0, Ghost(lines.subrange(0, k as int)));
        assert(lines.subrange(0, k as int).push(line@) =~= lines.subrange(0, k + 1));
        k = k + 1;
    }
    assert(lines.subrange(0, ts@.len() as int) =~= lines);
    let mut o = chars_of("Blocked topics:\n");
    append_chars(&mut o, body.as_slice());
    string_of(o.as_slice())
}

/// The answer to an unblocked topic.
pub fn topic_unblocked_reply(topic: &str, removed: bool) -> (r: String)
    ensures
        r@ == if removed {
            "✅ Topic '"@ + topic@ + "' unblocked."@
        } else {
            "Topic '"@ + topic@ + "' not found."@
        },
{
    let mut o = if removed { chars_of("✅ Topic '") } else { chars_of("Topic '") };
    append_str(&mut o, topic);
    append_str(&mut o, if removed { "' unblocked." } else { "' not found." });
    string_of(o.as_slice())
}

/// The answer to an escalation, from the id the store gave it.
pub fn escalation_reply(severity: &str, context: &str, stored: Result<String, String>) -> (r: Result<String, ToolError>)
    ensures
        match stored {
            Ok(id) => r matches Ok(m) && m@ == "🚨 Escalation logged (ID: "@ + id@ + "). Severity: "@ + severity@
                + ". This has been flagged for administrator review.\n\nContext: "@ + context@,
            Err(e) => r matches Err(x) && x.output@ == "Failed to log escalation: "@ + e@ && x.reason@ == e@,
        },
{
    match stored {
        Ok(id) => {
            let mut o = chars_of("🚨 Escalation logged (ID: ");
            append_str(&mut o, id.as_str());
            append_str(&mut o, "). Severity: ");
            append_str(&mut o, severity);
            append_str(&mut o, ". This has been flagged for administrator review.\n\nContext: ");
            append_str(&mut o, context);
            Ok(string_of(o.as_slice()))
        },
        Err(e) => Err(store_failure("Failed to log escalation: ", e.as_str())),
    }
}

/// The answer to a reported concern, from the id the store gave it.
pub fn concern_reply(severity: &str, stored: Result<String, String>) -> (r: Result<String, ToolError>)
    ensures
        match stored {
            Ok(id) => r matches Ok(m) && m@ == "📝 Concern logged (ID: "@ + id@ + "). Severity: "@ + severity@
                + ". Recorded for future review."@,
            Err(e) => r matches Err(x) && x.output@ == "Failed to log concern: "@ + e@ && x.reason@ == e@,
        },
{
    match stored {
        Ok(id) => {
            let mut o = chars_of("📝 Concern logged (ID: ");
            append_str(&mut o, id.as_str());
            append_str(&mut o, "). Severity: ");
            append_str(&mut o, severity);
            append_str(&mut o, ". Recorded for future review.");
            Ok(string_of(o.as_slice()))
        },
        Err(e) => Err(store_failure("Failed to log concern: ", e.as_str())),
    }
}

/// The answer to a rate limit.
pub fn rate_limit_reply(user_id: &str, seconds: u64, stored: Result<(), String>) -> (r: Result<String, ToolError>)
    ensures
        match stored {
            Ok(_) => r matches Ok(m) && m@ == "✅ Rate limit set: user "@ + user_id@
                + " limited to one response every "@ + decimal(seconds as nat) + " seconds."@,
            Err(e) => r matches Err(x) && x.output@ == "Failed to set rate limit: "@ + e@ && x.reason@ == e@,
        },
{
    match stored {
        Ok(_) => {
            let mut o = chars_of("✅ Rate limit set: user ");
            append_str(&mut o, user_id);
            append_str(&mut o, " limited to one response every ");
            let n = decimal_chars(seconds);
            append_chars(&mut o, n.as_slice());
            append_str(&mut o, " seconds.");
            Ok(string_of(o.as_slice()))
        },
        Err(e) => Err(store_failure("Failed to set rate limit: ", e.as_str())),
    }
}

/// The answer to a cleared rate limit.
pub fn rate_clear_reply(user_id: &str) -> (r: String)
    ensures
        r@ == "✅ Rate limit cleared for user "@ + user_id@ + "."@,
{
    let mut o = chars_of("✅ Rate limit cleared for user ");
    append_str(&mut o, user_id);
    append_str(&mut o, ".");
    string_of(o.as_slice())
}

/// The answer to a rate-limit status, with the seconds left if the user is
/// throttled.
pub fn rate_status_reply(user_id: &str, wait: Option<u64>) -> (r: String)
    ensures
        r@ == match wait {
            Some(s) => "User "@ + user_id@ + " is rate-limited. "@ + decimal(s as nat) + " seconds remaining."@,
            None => "User "@ + user_id@ + " has no active rate limit."@,
        },
{
    let mut o = chars_of("User ");
    append_str(&mut o, user_id);
    match wait {
        Some(s) => {
            append_str(&mut o, " is rate-limited. ");
            let n = decimal_chars(s);
            append_chars(&mut o, n.as_slice());
            append_str(&mut o, " seconds remaining.");
        },
        None => append_str(&mut o, " has no active rate limit."),
    }
    string_of(o.as_slice())
}

/// The answer to a consent request.
pub fn consent_request_text(question: &str) -> (r: String)
    ensures
        r@ == "[CONSENT_REQUEST] "@ + question@,
{
    let mut o = chars_of("[CONSENT_REQUEST] ");
    append_str(&mut o, question);
    string_of(o.as_slice())
}

} // verus!
