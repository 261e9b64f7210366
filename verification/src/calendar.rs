//! The calendar tool: alarms and events, the times they are set for, and the
//! requests and listings of the tool.  The records are stored and the clock is
//! read outside this crate.
use vstd::prelude::*;
use crate::fmt::{decimal, decimal_chars};
use crate::models::{tool_error, ToolError};
use crate::params::or_default;
use crate::tags::{extract_tag_chars, opt_str_is, spec_extract_tag};
use crate::text::{
    append_chars, append_str, chars_of, ends_with, ends_with_exec, owned, parse_i64,
    slice_copy, spec_parse_signed, starts_with, starts_with_exec, str_eq, string_of,
};

verus! {

/// An alarm as stored.
pub struct AlarmPayload {
    pub id: String,
    /// When it goes off, RFC 3339 in UTC.
    pub trigger_time: String,
    pub message: String,
    /// `pending` until it has gone off.
    pub status: String,
}

/// A calendar event as stored.
pub struct CalendarEvent {
    pub id: String,
    pub title: String,
    pub start_time: String,
    pub end_time: Option<String>,
    pub location: Option<String>,
    pub description: Option<String>,
    /// `daily`, `weekly`, `monthly`, or none.
    pub recurring: Option<String>,
    pub created_at: String,
}

// ───────────────────────── times ─────────────────────────

/// The unit of a relative time.
#[derive(Clone, Copy, Debug, PartialEq, Eq, Structural)]
pub enum TimeUnit {
    Minutes,
    Hours,
    Days,
}

/// A point in time as a request gives it.
pub enum TimeSpec {
    /// `amount` units from now.
    After { amount: i64, unit: TimeUnit },
    /// An absolute time, as RFC 3339 text in UTC.
    At { utc: String },
}

/// The abstract value of a [`TimeSpec`].
pub enum TimeSpecV {
    After(int, TimeUnit),
    At(Seq<char>),
}

impl View for TimeSpec {
    type V = TimeSpecV;

    open spec fn view(&self) -> TimeSpecV {
        match self {
            TimeSpec::After { amount, unit } => TimeSpecV::After(*amount as int, *unit),
            TimeSpec::At { utc } => TimeSpecV::At(utc@),
        }
    }
}

/// The RFC 3339 text of the instant that RFC 3339 text `s` denotes, in UTC;
/// `None` when `s` is not RFC 3339.
pub uninterp spec fn rfc3339_in_utc(s: Seq<char>) -> Option<Seq<char>>;

/// Reads `s` with `chrono::DateTime::parse_from_rfc3339`, then writes the
/// instant in UTC with `to_rfc3339`; `None` when chrono refuses the text.
#[verifier::external_body]
fn parse_rfc3339_utc(s: &str) -> (r: Option<String>)
    ensures
        match rfc3339_in_utc(s@) {
            Some(u) => r matches Some(x) && x@ == u,
            None => r is None,
        },
{
    match chrono::DateTime::parse_from_rfc3339(s) {
        Ok(dt) => Some(dt.with_timezone(&chrono::Utc).to_rfc3339()),
        Err(_) => None,
    }
}

pub const INVALID_TIME_TEXT: &'static str = "Invalid time format. Use +5m, +1h, +2d or full ISO RFC3339.";

/// The amount of a relative time `+<n><unit>`.
pub open spec fn relative_amount(s: Seq<char>) -> Option<int> {
    spec_parse_signed(s.subrange(1, s.len() - 1), i64::MIN as int, i64::MAX as int)
}

/// What a time text means: `+<n>m`, `+<n>h` and `+<n>d` are `n` minutes,
/// hours or days from now (`n` an `i64`), anything else must be RFC 3339.
pub open spec fn spec_parse_time(s: Seq<char>) -> Result<TimeSpecV, Seq<char>> {
    if starts_with(s, "+"@) && ends_with(s, "m"@) {
        match relative_amount(s) {
            Some(n) => Ok(TimeSpecV::After(n, TimeUnit::Minutes)),
            None => Err("Bad minutes"@),
        }
    } else if starts_with(s, "+"@) && ends_with(s, "h"@) {
        match relative_amount(s) {
            Some(n) => Ok(TimeSpecV::After(n, TimeUnit::Hours)),
            None => Err("Bad hours"@),
        }
    } else if starts_with(s, "+"@) && ends_with(s, "d"@) {
        match relative_amount(s) {
            Some(n) => Ok(TimeSpecV::After(n, TimeUnit::Days)),
            None => Err("Bad days"@),
        }
    } else {
        match rfc3339_in_utc(s) {
            Some(u) => Ok(TimeSpecV::At(u)),
            None => Err(INVALID_TIME_TEXT@),
        }
    }
}

pub open spec fn time_result_is(r: Result<TimeSpec, String>, s: Result<TimeSpecV, Seq<char>>) -> bool {
    match s {
        Ok(t) => r matches Ok(x) && x@ == t,
        Err(e) => r matches Err(x) && x@ == e,
    }
}

/// The point in time that `s` gives.
pub fn parse_time(s: &str) -> (r: Result<TimeSpec, String>)
    ensures
        time_result_is(r, spec_parse_time(s@)),
{
    let c = chars_of(s);
    let plus = chars_of("+");
    let m = chars_of("m");
    let h = chars_of("h");
    let d = chars_of("d");
    let signed = starts_with_exec(c.as_slice(), plus.as_slice());
    let unit = if signed && ends_with_exec(c.as_slice(), m.as_slice()) {
        Some(TimeUnit::Minutes)
    } else if signed && ends_with_exec(c.as_slice(), h.as_slice()) {
        Some(TimeUnit::Hours)
    } else if signed && ends_with_exec(c.as_slice(), d.as_slice()) {
        Some(TimeUnit::Days)
    } else {
        None
    };
    match unit {
        Some(u) => {
            proof {
                reveal_strlit("+");
                reveal_strlit("m");
                reveal_strlit("h");
                reveal_strlit("d");
                assert(c@.subrange(0, 1)[0] == c@[0]);
                let last = c@.len() - 1;
                assert(c@.subrange(last, c@.len() as int)[0] == c@[last]);
            }
            assert(c@.len() >= 2);
            let mid = slice_copy(c.as_slice(), 1, c.len() - 1);
            match parse_i64(mid.as_slice()) {
                Some(n) => Ok(TimeSpec::After { amount: n, unit: u }),
                None => Err(
                    match u {
                        TimeUnit::Minutes => owned("Bad minutes"),
                        TimeUnit::Hours => owned("Bad hours"),
                        TimeUnit::Days => owned("Bad days"),
                    },
                ),
            }
        },
        None => match parse_rfc3339_utc(s) {
            Some(u) => Ok(TimeSpec::At { utc: u }),
            None => Err(owned(INVALID_TIME_TEXT)),
        },
    }
}

// ───────────────────────── requests ─────────────────────────

/// A request to the calendar.
pub enum CalendarCommand {
    SetAlarm { time: TimeSpec, message: String },
    ListAlarms,
    CreateEvent {
        title: String,
        start: TimeSpec,
        end: Option<TimeSpec>,
        location: Option<String>,
        details: Option<String>,
        recurring: Option<String>,
    },
    ListEvents,
    DeleteEvent { id: String },
}

/// The abstract value of a [`CalendarCommand`].
pub enum CalendarSpec {
    SetAlarm(TimeSpecV, Seq<char>),
    ListAlarms,
    CreateEvent(TimeSpecEvent),
    ListEvents,
    DeleteEvent(Seq<char>),
}

/// The abstract value of an event creation request.
pub struct TimeSpecEvent {
    pub title: Seq<char>,
    pub start: TimeSpecV,
    pub end: Option<TimeSpecV>,
    pub location: Option<Seq<char>>,
    pub details: Option<Seq<char>>,
    pub recurring: Option<Seq<char>>,
}

pub open spec fn opt_view(o: Option<String>) -> Option<Seq<char>> {
    match o {
        Some(s) => Some(s@),
        None => None,
    }
}

impl View for CalendarCommand {
    type V = CalendarSpec;

    open spec fn view(&self) -> CalendarSpec {
        match self {
            CalendarCommand::SetAlarm { time, message } => CalendarSpec::SetAlarm(time@, message@),
            CalendarCommand::ListAlarms => CalendarSpec::ListAlarms,
            CalendarCommand::CreateEvent { title, start, end, location, details, recurring } => {
                CalendarSpec::CreateEvent(
                    TimeSpecEvent {
                        title: title@,
                        start: start@,
                        end: match end {
                            Some(e) => Some(e@),
                            None => None,
                        },
                        location: opt_view(*location),
                        details: opt_view(*details),
                        recurring: opt_view(*recurring),
                    },
                )
            },
            CalendarCommand::ListEvents => CalendarSpec::ListEvents,
            CalendarCommand::DeleteEvent { id } => CalendarSpec::DeleteEvent(id@),
        }
    }
}

/// A tag's value when it is present and non-empty.
pub open spec fn nonempty_tag(desc: Seq<char>, tag: Seq<char>) -> Option<Seq<char>> {
    match spec_extract_tag(desc, tag) {
        Some(v) => if v.len() > 0 {
            Some(v)
        } else {
            None
        },
        None => None,
    }
}

/// The request `desc` makes; the action is its `action:` tag, `set_alarm` by
/// default.
pub open spec fn spec_calendar_command(desc: Seq<char>) -> Result<CalendarSpec, (Seq<char>, Seq<char>)> {
    let action = or_default(spec_extract_tag(desc, "action:"@), "set_alarm"@);
    if action == "set_alarm"@ {
        let time = or_default(spec_extract_tag(desc, "time:"@), Seq::empty());
        let message = or_default(spec_extract_tag(desc, "message:"@), Seq::empty());
        if time.len() == 0 || message.len() == 0 {
            Err(("Error: Missing 'time:' or 'message:' params."@, "Missing Params"@))
        } else {
            match spec_parse_time(time) {
                Ok(t) => Ok(CalendarSpec::SetAlarm(t, message)),
                Err(e) => Err(("Error: "@ + e, "Bad Parse"@)),
            }
        }
    } else if action == "list_alarms"@ {
        Ok(CalendarSpec::ListAlarms)
    } else if action == "create_event"@ {
        match nonempty_tag(desc, "title:"@) {
            None => Err(("Error: 'title:' is required."@, "Missing title"@)),
            Some(title) => match nonempty_tag(desc, "start:"@) {
                None => Err(("Error: 'start:' time is required."@, "Missing start"@)),
                Some(start) => match spec_parse_time(start) {
                    Err(e) => Err(("Error parsing start time: "@ + e, "Bad Parse"@)),
                    Ok(st) => {
                        let end = match spec_extract_tag(desc, "end:"@) {
                            Some(e) => match spec_parse_time(e) {
                                Ok(t) => Ok(Some(t)),
                                Err(x) => Err(x),
                            },
                            None => Ok(None),
                        };
                        match end {
                            Err(x) => Err(("Error parsing end time: "@ + x, "Bad Parse"@)),
                            Ok(en) => Ok(
                                CalendarSpec::CreateEvent(
                                    TimeSpecEvent {
                                        title,
                                        start: st,
                                        end: en,
                                        location: spec_extract_tag(desc, "location:"@),
                                        details: spec_extract_tag(desc, "details:"@),
                                        recurring: spec_extract_tag(desc, "recurring:"@),
                                    },
                                ),
                            ),
                        }
                    },
                },
            },
        }
    } else if action == "list_events"@ {
        Ok(CalendarSpec::ListEvents)
    } else if action == "delete_event"@ {
        match nonempty_tag(desc, "id:"@) {
            Some(id) => Ok(CalendarSpec::DeleteEvent(id)),
            None => Err(("Error: 'id:' is required."@, "Missing id"@)),
        }
    } else {
        Err(
            (
                "Error: Unknown action '"@ + action
                    + "'. Use: set_alarm, list_alarms, create_event, list_events, delete_event."@,
                "Bad Action"@,
            ),
        )
    }
}

fn tag_string(d: &[char], tag: &str) -> (r: Option<String>)
    ensures
        opt_str_is(r, spec_extract_tag(d@, tag@)),
{
    let g = chars_of(tag);
    match extract_tag_chars(d, g.as_slice()) {
        Some(v) => Some(string_of(v.as_slice())),
        None => None,
    }
}

fn nonempty_tag_exec(d: &[char], tag: &str) -> (r: Option<String>)
    ensures
        opt_str_is(r, nonempty_tag(d@, tag@)),
{
    match tag_string(d, tag) {
        Some(v) => if v.as_str().unicode_len() > 0 {
            Some(v)
        } else {
            None
        },
        None => None,
    }
}

fn prefixed(prefix: &str, s: &str) -> (r: String)
    ensures
        r@ == prefix@ + s@,
{
    let mut o = chars_of(prefix);
    append_str(&mut o, s);
    string_of(o.as_slice())
}

/// The calendar request that `desc` makes.
pub fn parse_calendar_command(desc: &str) -> (r: Result<CalendarCommand, ToolError>)
    ensures
        match spec_calendar_command(desc@) {
            Ok(c) => r matches Ok(x) && x@ == c,
            Err((o, m)) => r matches Err(e) && e.output@ == o && e.reason@ == m,
        },
{
    let dv = chars_of(desc);
    let d = dv.as_slice();
    let action = match tag_string(d, "action:") {
        Some(a) => a,
        None => owned("set_alarm"),
    };
    let a = action.as_str();
    if str_eq(a, "set_alarm") {
        let time = match tag_string(d, "time:") {
            Some(t) => t,
            None => String::new(),
        };
        let message = match tag_string(d, "message:") {
            Some(m) => m,
            None => String::new(),
        };
        if time.as_str().unicode_len() == 0 || message.as_str().unicode_len() == 0 {
            return Err(tool_error("Error: Missing 'time:' or 'message:' params.", "Missing Params"));
        }
        match parse_time(time.as_str()) {
            Ok(t) => Ok(CalendarCommand::SetAlarm { time: t, message }),
            Err(e) => Err(ToolError { output: prefixed("Error: ", e.as_str()), reason: owned("Bad Parse") }),
        }
    } else if str_eq(a, "list_alarms") {
        Ok(CalendarCommand::ListAlarms)
    } else if str_eq(a, "create_event") {
        let title = match nonempty_tag_exec(d, "title:") {
            Some(t) => t,
            None => return Err(tool_error("Error: 'title:' is required.", "Missing title")),
        };
        let start = match nonempty_tag_exec(d, "start:") {
            Some(t) => t,
            None => return Err(tool_error("Error: 'start:' time is required.", "Missing start")),
        };
        let st = match parse_time(start.as_str()) {
            Ok(t) => t,
            Err(e) => return Err(
                ToolError {
                    output: prefixed("Error parsing start time: ", e.as_str()),
                    reason: owned("Bad Parse"),
                },
            ),
        };
        let end = match tag_string(d, "end:") {
            Some(e) => match parse_time(e.as_str()) {
                Ok(t) => Some(t),
                Err(x) => return Err(
                    ToolError {
                        output: prefixed("Error parsing end time: ", x.as_str()),
                        reason: owned("Bad Parse"),
                    },
                ),
            },
            None => None,
        };
        Ok(
            CalendarCommand::CreateEvent {
                title,
                start: st,
                end,
                location: tag_string(d, "location:"),
                details: tag_string(d, "details:"),
                recurring: tag_string(d, "recurring:"),
            },
        )
    } else if str_eq(a, "list_events") {
        Ok(CalendarCommand::ListEvents)
    } else if str_eq(a, "delete_event") {
        match nonempty_tag_exec(d, "id:") {
            Some(id) => Ok(CalendarCommand::DeleteEvent { id }),
            None => Err(tool_error("Error: 'id:' is required.", "Missing id")),
        }
    } else {
        let mut o: Vec<char> = Vec::new();
        append_str(&mut o, "Error: Unknown action '");
        append_str(&mut o, a);
        append_str(&mut o, "'. Use: set_alarm, list_alarms, create_event, list_events, delete_event.");
        Err(ToolError { output: string_of(o.as_slice()), reason: owned("Bad Action") })
    }
}

// ───────────────────────── listings ─────────────────────────

/// The first eight characters of `s` exist and are ASCII, so that its first
/// eight bytes are those characters.
pub open spec fn ascii_prefix8(s: Seq<char>) -> bool {
    s.len() >= 8 && forall|j: int| 0 <= j < 8 ==> (#[trigger] s[j] as u32) < 128
}

/// The listing line of one alarm (its id shortened to eight characters).
pub open spec fn alarm_line(a: AlarmPayload) -> Seq<char> {
    "\n• ["@ + a.id@.subrange(0, 8) + "] "@ + a.trigger_time@ + " — "@ + a.message@ + " ("@
        + a.status@ + ")"@
}

pub open spec fn alarm_lines(s: Seq<AlarmPayload>) -> Seq<char>
    decreases s.len(),
{
    if s.len() == 0 {
        Seq::empty()
    } else {
        alarm_lines(s.drop_last()) + alarm_line(s.last())
    }
}

/// The listing of the alarms.
pub open spec fn spec_alarm_list(s: Seq<AlarmPayload>) -> Seq<char> {
    if s.len() == 0 {
        "No alarms set."@
    } else {
        "⏰ "@ + decimal(s.len()) + " alarm(s):\n"@ + alarm_lines(s)
    }
}

/// The listing of the alarms.  Each id must begin with eight ASCII characters,
/// which the listing shows.
pub fn list_alarms(alarms: &Vec<AlarmPayload>) -> (r: String)
    requires
        forall|i: int| 0 <= i < alarms@.len() ==> ascii_prefix8(#[trigger] alarms@[i].id@),
    ensures
        r@ == spec_alarm_list(alarms@),
{
    if alarms.len() == 0 {
        return owned("No alarms set.");
    }
    let mut o: Vec<char> = Vec::new();
    append_str(&mut o, "⏰ ");
    let n = decimal_chars(alarms.len() as u64);
    append_chars(&mut o, n.as_slice());
    append_str(&mut o, " alarm(s):\n");
    let ghost head = o@;
    let mut i: usize = 0;
    while i < alarms.len()
        invariant
            i <= alarms@.len(),
            forall|k: int| 0 <= k < alarms@.len() ==> ascii_prefix8(#[trigger] alarms@[k].id@),
            o@ == head + alarm_lines(alarms@.subrange(0, i as int)),
        decreases alarms.len() - i,
    {
        assert(alarms@.subrange(0, i + 1).drop_last() =~= alarms@.subrange(0, i as int));
        let a = &alarms[i];
        assert(ascii_prefix8(alarms@[i as int].id@));
        let ghost before = o@;
        append_str(&mut o, "\n• [");
        let id = chars_of(a.id.as_str());
        let short = slice_copy(id.as_slice(), 0, 8);
        append_chars(&mut o, short.as_slice());
        append_str(&mut o, "] ");
        append_str(&mut o, a.trigger_time.as_str());
        append_str(&mut o, " — ");
        append_str(&mut o, a.message.as_str());
        append_str(&mut o, " (");
        append_str(&mut o, a.status.as_str());
        append_str(&mut o, ")");
        assert(o@ =~= before + alarm_line(*a));
        i = i + 1;
    }
    assert(alarms@.subrange(0, i as int) =~= alarms@);
    string_of(o.as_slice())
}

pub open spec fn opt_part(o: Option<String>, prefix: Seq<char>) -> Seq<char> {
    match o {
        Some(s) => prefix + s@,
        None => Seq::empty(),
    }
}

/// The listing entry of one event.
pub open spec fn event_line(e: CalendarEvent) -> Seq<char> {
    "\n• "@ + e.title@ + " (id: "@ + e.id@ + ") — "@ + e.start_time@ + opt_part(e.end_time, " → "@)
        + opt_part(e.location, " @ "@) + opt_part(e.recurring, " 🔁 "@) + opt_part(
        e.description,
        "\n  "@,
    )
}

pub open spec fn event_lines(s: Seq<CalendarEvent>) -> Seq<char>
    decreases s.len(),
{
    if s.len() == 0 {
        Seq::empty()
    } else {
        event_lines(s.drop_last()) + event_line(s.last())
    }
}

/// The listing of the events.
pub open spec fn spec_event_list(s: Seq<CalendarEvent>) -> Seq<char> {
    if s.len() == 0 {
        "No calendar events."@
    } else {
        "📅 "@ + decimal(s.len()) + " event(s):\n"@ + event_lines(s)
    }
}

fn append_opt(o: &mut Vec<char>, v: &Option<String>, prefix: &str)
    ensures
        final(o)@ == old(o)@ + opt_part(*v, prefix@),
{
    match v {
        Some(s) => {
            append_str(o, prefix);
            append_str(o, s.as_str());
        },
        None => {
            assert(old(o)@ + opt_part(*v, prefix@) =~= old(o)@);
        },
    }
}

/// The listing of the events.
pub fn list_events(events: &Vec<CalendarEvent>) -> (r: String)
    ensures
        r@ == spec_event_list(events@),
{
    if events.len() == 0 {
        return owned("No calendar events.");
    }
    let mut o: Vec<char> = Vec::new();
    append_str(&mut o, "📅 ");
    let n = decimal_chars(events.len() as u64);
    append_chars(&mut o, n.as_slice());
    append_str(&mut o, " event(s):\n");
    let ghost head = o@;
    let mut i: usize = 0;
    while i < events.len()
        invariant
            i <= events@.len(),
            o@ == head + event_lines(events@.subrange(0, i as int)),
        decreases events.len() - i,
    {
        assert(events@.subrange(0, i + 1).drop_last() =~= events@.subrange(0, i as int));
        let e = &events[i];
        let ghost before = o@;
        append_str(&mut o, "\n• ");
        append_str(&mut o, e.title.as_str());
        append_str(&mut o, " (id: ");
        append_str(&mut o, e.id.as_str());
        append_str(&mut o, ") — ");
        append_str(&mut o, e.start_time.as_str());
        append_opt(&mut o, &e.end_time, " → ");
        append_opt(&mut o, &e.location, " @ ");
        append_opt(&mut o, &e.recurring, " 🔁 ");
        append_opt(&mut o, &e.description, "\n  ");
        assert(o@ =~= before + event_line(*e));
        i = i + 1;
    }
    assert(events@.subrange(0, i as int) =~= events@);
    string_of(o.as_slice())
}

/// The answer to a set alarm, `trigger_time` being its RFC 3339 time.
pub fn alarm_set_text(trigger_time: &str) -> (r: String)
    ensures
        r@ == "Alarm set for "@ + trigger_time@ + "."@,
{
    let mut o: Vec<char> = Vec::new();
    append_str(&mut o, "Alarm set for ");
    append_str(&mut o, trigger_time);
    append_str(&mut o, ".");
    string_of(o.as_slice())
}

/// The answer to a created event.
pub open spec fn spec_event_created(e: CalendarEvent, total: nat) -> Seq<char> {
    "Event '"@ + e.title@ + "' created (id: "@ + e.id@ + ") at "@ + e.start_time@
        + ". Total events: "@ + decimal(total)
}

/// The answer to a created event, `total` events now being stored.
pub fn event_created_text(e: &CalendarEvent, total: usize) -> (r: String)
    ensures
        r@ == spec_event_created(*e, total as nat),
{
    let mut o: Vec<char> = Vec::new();
    append_str(&mut o, "Event '");
    append_str(&mut o, e.title.as_str());
    append_str(&mut o, "' created (id: ");
    append_str(&mut o, e.id.as_str());
    append_str(&mut o, ") at ");
    append_str(&mut o, e.start_time.as_str());
    append_str(&mut o, ". Total events: ");
    let n = decimal_chars(total as u64);
    append_chars(&mut o, n.as_slice());
    string_of(o.as_slice())
}

// ───────────────────────── deletion ─────────────────────────

/// `s` without the events whose id is `id`.
pub open spec fn events_without(s: Seq<CalendarEvent>, id: Seq<char>) -> Seq<CalendarEvent>
    decreases s.len(),
{
    if s.len() == 0 {
        s
    } else {
        let p = events_without(s.drop_last(), id);
        if s.last().id@ == id {
            p
        } else {
            p.push(s.last())
        }
    }
}

/// Remove the events whose id is `id`; refused, with nothing removed, when
/// there is none.
pub fn delete_event(events: &mut Vec<CalendarEvent>, id: &str) -> (r: Result<String, ToolError>)
    ensures
        final(events)@ == events_without(old(events)@, id@),
        events_without(old(events)@, id@).len() == old(events)@.len() ==> (r matches Err(e)
            && e.output@ == "No event with id '"@ + id@ + "'."@ && e.reason@ == "Not found"@),
        events_without(old(events)@, id@).len() < old(events)@.len() ==> (r matches Ok(m) && m@
            == "Event '"@ + id@ + "' deleted. "@ + decimal(final(events)@.len()) + " events remaining."@),
{
    let ghost s0 = events@;
    let n0 = events.len();
    let mut i: usize = 0;
    let mut j: usize = 0;
    assert(s0.subrange(0, 0) =~= Seq::<CalendarEvent>::empty());
    assert(s0.subrange(0, s0.len() as int) =~= s0);
    while j < n0
        invariant
            n0 == s0.len(),
            i <= j <= n0,
            events@ == events_without(s0.subrange(0, j as int), id@) + s0.subrange(j as int, n0 as int),
            i == events_without(s0.subrange(0, j as int), id@).len(),
        decreases n0 - j,
    {
        assert(s0.subrange(0, j + 1).drop_last() =~= s0.subrange(0, j as int));
        let ghost p = events_without(s0.subrange(0, j as int), id@);
        assert(events@[i as int] == s0[j as int]);
        if str_eq(events[i].id.as_str(), id) {
            let _gone = events.remove(i);
            assert(events@ =~= p + s0.subrange(j + 1, n0 as int));
        } else {
            assert(events@ =~= p.push(s0[j as int]) + s0.subrange(j + 1, n0 as int));
            i = i + 1;
        }
        j = j + 1;
    }
    assert(events@ =~= events_without(s0, id@));
    if events.len() == n0 {
        let mut o: Vec<char> = Vec::new();
        append_str(&mut o, "No event with id '");
        append_str(&mut o, id);
        append_str(&mut o, "'.");
        return Err(ToolError { output: string_of(o.as_slice()), reason: owned("Not found") });
    }
    let mut o: Vec<char> = Vec::new();
    append_str(&mut o, "Event '");
    append_str(&mut o, id);
    append_str(&mut o, "' deleted. ");
    let n = decimal_chars(events.len() as u64);
    append_chars(&mut o, n.as_slice());
    append_str(&mut o, " events remaining.");
    Ok(string_of(o.as_slice()))
}


/// After a deletion by id no event with that id is left, every other event
/// stays in its order, and the deletion is refused exactly when no event
/// had that id.
pub proof fn law_deleted_event_is_gone(s: Seq<CalendarEvent>, id: Seq<char>)
    ensures
        forall|i: int| 0 <= i < events_without(s, id).len() ==> #[trigger] events_without(s, id)[i].id@ != id,
        forall|j: int| 0 <= j < s.len() && s[j].id@ != id ==> events_without(s, id).contains(#[trigger] s[j]),
        events_without(s, id).len() <= s.len(),
        events_without(s, id).len() == s.len() <==> forall|j: int| 0 <= j < s.len() ==> #[trigger] s[j].id@ != id,
    decreases s.len(),
{
    if s.len() > 0 {
        let d = s.drop_last();
        law_deleted_event_is_gone(d, id);
        let p = events_without(d, id);
        assert forall|i: int| 0 <= i < events_without(s, id).len() implies #[trigger] events_without(s, id)[i].id@ != id by {
            if i < p.len() {
                assert(events_without(s, id)[i] == p[i]);
                assert(p[i].id@ != id);
            } else {
                assert(s.last().id@ != id);
                assert(events_without(s, id)[i] == s.last());
            }
        }
        assert forall|j: int| 0 <= j < s.len() && s[j].id@ != id implies events_without(s, id).contains(#[trigger] s[j]) by {
            if j < s.len() - 1 {
                assert(d[j] == s[j]);
                let k = choose|k: int| 0 <= k < p.len() && p[k] == d[j];
                if s.last().id@ != id {
                    assert(p.push(s.last())[k] == s[j]);
                }
            } else {
                assert(p.push(s.last())[p.len() as int] == s[j]);
            }
        }
        if events_without(s, id).len() == s.len() {
            if s.last().id@ == id {
                assert(false);
            }
            assert forall|j: int| 0 <= j < s.len() implies #[trigger] s[j].id@ != id by {
                if j < s.len() - 1 {
                    assert(d[j] == s[j]);
                }
            }
        }
        if forall|j: int| 0 <= j < s.len() ==> #[trigger] s[j].id@ != id {
            assert forall|j: int| 0 <= j < d.len() implies #[trigger] d[j].id@ != id by {
                assert(d[j] == s[j]);
            }
            assert(s[s.len() - 1].id@ != id);
        }
    }
}

} // verus!
