//! The lessons tool: what a request to remember, list or search lessons asks
//! for, and which lessons a search finds.  Lessons are stored outside this
//! crate; their confidence, a fraction, is read and shown there.
use vstd::prelude::*;
use crate::containment::{lowercase, to_lowercase};
use crate::library::{remove_all, remove_all_exec};
use crate::models::{tool_error, Scope, ToolError};
use crate::params::or_default;
use crate::tags::{extract_bracket_tag_chars, extract_tag_chars, spec_bracket_tag, spec_extract_tag};
use crate::text::{
    append_str, chars_of, contains, contains_exec, owned, split_char, split_char_exec,
    starts_with, starts_with_exec, str_eq, string_of, trim, trim_exec,
};

verus! {

pub open spec fn strs(v: Seq<String>) -> Seq<Seq<char>> {
    v.map_values(|s: String| s@)
}

/// The keywords of a lesson: the comma-separated pieces, trimmed and
/// lower-cased, empty ones left out.
pub open spec fn spec_keywords(s: Seq<char>) -> Seq<Seq<char>> {
    keyword_list(split_char(s, ','))
}

pub open spec fn keyword_list(parts: Seq<Seq<char>>) -> Seq<Seq<char>>
    decreases parts.len(),
{
    if parts.len() == 0 {
        Seq::empty()
    } else {
        let p = keyword_list(parts.drop_last());
        let k = lowercase(trim(parts.last()));
        if k.len() > 0 {
            p.push(k)
        } else {
            p
        }
    }
}

/// The keywords of a lesson.
pub fn parse_keywords(s: &str) -> (r: Vec<String>)
    ensures
        strs(r@) == spec_keywords(s@),
{
    let c = chars_of(s);
    let parts = split_char_exec(c.as_slice(), ',');
    let ghost ps = split_char(s@, ',');
    let mut out: Vec<String> = Vec::new();
    let mut i: usize = 0;
    while i < parts.len()
        invariant
            i <= parts@.len(),
            ps == split_char(s@, ','),
            parts@.len() == ps.len(),
            forall|k: int| 0 <= k < parts@.len() ==> #[trigger] parts@[k]@ == ps[k],
            strs(out@) == keyword_list(ps.subrange(0, i as int)),
        decreases parts.len() - i,
    {
        assert(ps.subrange(0, i + 1).drop_last() =~= ps.subrange(0, i as int));
        assert(ps.subrange(0, i + 1).last() == parts@[i as int]@);
        let t = trim_exec(parts[i].as_slice());
        let k = to_lowercase(string_of(t.as_slice()).as_str());
        if k.as_str().unicode_len() > 0 {
            let ghost before = strs(out@);
            out.push(k);
            assert(strs(out@) =~= before.push(k@));
        }
        i = i + 1;
    }
    assert(ps.subrange(0, i as int) =~= ps);
    out
}

/// Whether `s` is the scope a request names with `name`: a `public_<channel>`
/// name is that channel (for the `system` user); any other name is the
/// private scope of that user (`private_` markers removed).
pub open spec fn scope_named(s: Scope, name: Seq<char>) -> bool {
    match s {
        Scope::Public { channel_id, user_id } => starts_with(name, "public_"@) && channel_id@
            == remove_all(name, "public_"@) && user_id@ == "system"@,
        Scope::Private { user_id } => !starts_with(name, "public_"@) && user_id@ == remove_all(
            name,
            "private_"@,
        ),
    }
}

/// The scope a request names.
pub fn named_scope(name: &str) -> (r: Scope)
    ensures
        scope_named(r, name@),
{
    let n = chars_of(name);
    let public = chars_of("public_");
    if starts_with_exec(n.as_slice(), public.as_slice()) {
        let c = remove_all_exec(n.as_slice(), public.as_slice());
        Scope::Public { channel_id: string_of(c.as_slice()), user_id: owned("system") }
    } else {
        let private = chars_of("private_");
        let u = remove_all_exec(n.as_slice(), private.as_slice());
        Scope::Private { user_id: string_of(u.as_slice()) }
    }
}

/// A request to the lessons store.
pub enum LessonCommand {
    /// Store a lesson, in the named scope or else the current one; the
    /// confidence is given as text (`1.0` by default).
    Store { lesson: String, keywords: Vec<String>, confidence: String, scope: Option<Scope> },
    Read,
    /// Search for the lower-cased query.
    Search { query: String },
}

/// The request `desc` makes; its action, lower-cased, is required.
pub open spec fn lesson_request_is(r: Result<LessonCommand, ToolError>, desc: Seq<char>) -> bool {
    let action = lowercase(or_default(spec_extract_tag(desc, "action:"@), Seq::empty()));
    if action.len() == 0 {
        r matches Err(e) && e.output@ == "Error: Missing 'action:' field."@ && e.reason@ == "Missing action field"@
    } else if action == "store"@ {
        let lesson = or_default(spec_extract_tag(desc, "lesson:"@), Seq::empty());
        if lesson.len() == 0 {
            r matches Err(e) && e.output@ == "Error: Missing 'lesson:' field for store action."@
                && e.reason@ == "Missing field"@
        } else {
            r matches Ok(LessonCommand::Store { lesson: l, keywords, confidence, scope }) && l@ == lesson
                && strs(keywords@) == spec_keywords(or_default(spec_extract_tag(desc, "keywords:"@), Seq::empty()))
                && confidence@ == or_default(spec_extract_tag(desc, "confidence:"@), "1.0"@) && match spec_extract_tag(
                desc,
                "scope:"@,
            ) {
                Some(n) => scope matches Some(sc) && scope_named(sc, n),
                None => scope is None,
            }
        }
    } else if action == "read"@ {
        r matches Ok(LessonCommand::Read)
    } else if action == "search"@ {
        let q = lowercase(or_default(spec_extract_tag(desc, "query:"@), Seq::empty()));
        if q.len() == 0 {
            r matches Err(e) && e.output@ == "Error: Missing 'query:' field for search action."@
                && e.reason@ == "Missing field"@
        } else {
            r matches Ok(LessonCommand::Search { query }) && query@ == q
        }
    } else {
        r matches Err(e) && e.output@ == "Unknown action '"@ + action + "'. Valid actions: store, read, search."@
            && e.reason@ == "Unknown action"@
    }
}

fn tag_or(d: &[char], tag: &str, dflt: &str) -> (r: Vec<char>)
    ensures
        r@ == or_default(spec_extract_tag(d@, tag@), dflt@),
{
    let g = chars_of(tag);
    match extract_tag_chars(d, g.as_slice()) {
        Some(v) => v,
        None => chars_of(dflt),
    }
}

fn tag_or_empty(d: &[char], tag: &str) -> (r: String)
    ensures
        r@ == or_default(spec_extract_tag(d@, tag@), Seq::empty()),
{
    let g = chars_of(tag);
    match extract_tag_chars(d, g.as_slice()) {
        Some(v) => string_of(v.as_slice()),
        None => String::new(),
    }
}

/// The lessons store request that `desc` makes.
pub fn parse_lesson_command(desc: &str) -> (r: Result<LessonCommand, ToolError>)
    ensures
        lesson_request_is(r, desc@),
{
    let dv = chars_of(desc);
    let d = dv.as_slice();
    let action = to_lowercase(tag_or_empty(d, "action:").as_str());
    let a = action.as_str();
    if a.unicode_len() == 0 {
        return Err(tool_error("Error: Missing 'action:' field.", "Missing action field"));
    }
    if str_eq(a, "store") {
        let lesson = tag_or_empty(d, "lesson:");
        if lesson.as_str().unicode_len() == 0 {
            return Err(tool_error("Error: Missing 'lesson:' field for store action.", "Missing field"));
        }
        let keywords = parse_keywords(tag_or_empty(d, "keywords:").as_str());
        let confidence = string_of(tag_or(d, "confidence:", "1.0").as_slice());
        let g = chars_of("scope:");
        let scope = match extract_tag_chars(d, g.as_slice()) {
            Some(n) => Some(named_scope(string_of(n.as_slice()).as_str())),
            None => None,
        };
        Ok(LessonCommand::Store { lesson, keywords, confidence, scope })
    } else if str_eq(a, "read") {
        Ok(LessonCommand::Read)
    } else if str_eq(a, "search") {
        let q = to_lowercase(tag_or_empty(d, "query:").as_str());
        if q.as_str().unicode_len() == 0 {
            return Err(tool_error("Error: Missing 'query:' field for search action.", "Missing field"));
        }
        Ok(LessonCommand::Search { query: q })
    } else {
        let mut o: Vec<char> = Vec::new();
        append_str(&mut o, "Unknown action '");
        append_str(&mut o, a);
        append_str(&mut o, "'. Valid actions: store, read, search.");
        Err(ToolError { output: string_of(o.as_slice()), reason: owned("Unknown action") })
    }
}

/// Some keyword holds the query.
pub open spec fn keyword_holds(ks: Seq<Seq<char>>, q: Seq<char>) -> bool
    decreases ks.len(),
{
    ks.len() > 0 && (keyword_holds(ks.drop_last(), q) || contains(ks.last(), q))
}

/// A lesson matches a lower-cased query when its lower-cased text or one of
/// its keywords (as stored) holds the query.
pub open spec fn lesson_matches(text: Seq<char>, keywords: Seq<Seq<char>>, q: Seq<char>) -> bool {
    contains(lowercase(text), q) || keyword_holds(keywords, q)
}

/// Whether a lesson with this text and these keywords matches the query.
pub fn lesson_matches_query(text: &str, keywords: &Vec<String>, query: &str) -> (r: bool)
    ensures
        r == lesson_matches(text@, strs(keywords@), query@),
{
    let l = to_lowercase(text);
    let lc = chars_of(l.as_str());
    let q = chars_of(query);
    if contains_exec(lc.as_slice(), q.as_slice()) {
        return true;
    }
    let ghost ks = strs(keywords@);
    let mut found = false;
    let mut i: usize = 0;
    while i < keywords.len()
        invariant
            i <= keywords@.len(),
            ks == strs(keywords@),
            q@ == query@,
            found == keyword_holds(ks.subrange(0, i as int), query@),
        decreases keywords.len() - i,
    {
        assert(ks.subrange(0, i + 1).drop_last() =~= ks.subrange(0, i as int));
        assert(ks.subrange(0, i + 1).last() == keywords@[i as int]@);
        let k = chars_of(keywords[i].as_str());
        let h = contains_exec(k.as_slice(), q.as_slice());
        found = found || h;
        i = i + 1;
    }
    assert(ks.subrange(0, i as int) =~= ks);
    found
}


/// A lesson to store, as the lesson drone reads it: its text, keywords,
/// confidence (as text, `1.0` by default) and scope (`public_general` by
/// default).
pub struct StoreLesson {
    pub lesson: String,
    pub keywords: Vec<String>,
    pub confidence: String,
    pub scope: Scope,
}

/// The lesson the drone request `desc` stores; its values are written
/// `name:[value]`, and the lesson is required.
pub open spec fn store_lesson_is(r: Result<StoreLesson, ToolError>, desc: Seq<char>) -> bool {
    let lesson = or_default(spec_bracket_tag(desc, "lesson:"@), Seq::empty());
    if lesson.len() == 0 {
        r matches Err(e) && e.output@ == "Error: Missing 'lesson:' field."@ && e.reason@ == "Missing field"@
    } else {
        r matches Ok(l) && l.lesson@ == lesson && strs(l.keywords@) == spec_keywords(
            or_default(spec_bracket_tag(desc, "keywords:"@), Seq::empty()),
        ) && l.confidence@ == or_default(spec_bracket_tag(desc, "confidence:"@), "1.0"@) && scope_named(
            l.scope,
            or_default(spec_bracket_tag(desc, "scope:"@), "public_general"@),
        )
    }
}

fn bracket_or(d: &[char], tag: &str, dflt: &str) -> (r: String)
    ensures
        r@ == or_default(spec_bracket_tag(d@, tag@), dflt@),
{
    let g = chars_of(tag);
    match extract_bracket_tag_chars(d, g.as_slice()) {
        Some(v) => string_of(v.as_slice()),
        None => owned(dflt),
    }
}

/// The lesson that the drone request `desc` stores.
pub fn parse_store_lesson(desc: &str) -> (r: Result<StoreLesson, ToolError>)
    ensures
        store_lesson_is(r, desc@),
{
    let dv = chars_of(desc);
    let d = dv.as_slice();
    assert(""@ =~= Seq::<char>::empty()) by {
        reveal_strlit("");
    }
    let lesson = bracket_or(d, "lesson:", "");
    if lesson.as_str().unicode_len() == 0 {
        return Err(tool_error("Error: Missing 'lesson:' field.", "Missing field"));
    }
    let keywords = parse_keywords(bracket_or(d, "keywords:", "").as_str());
    let confidence = bracket_or(d, "confidence:", "1.0");
    let scope = named_scope(bracket_or(d, "scope:", "public_general").as_str());
    Ok(StoreLesson { lesson, keywords, confidence, scope })
}

/// The answer to a stored lesson, from what the store reported.
pub fn lesson_stored_reply(stored: Result<(), String>) -> (r: Result<String, ToolError>)
    ensures
        match stored {
            Ok(_) => r matches Ok(m) && m@ == "Lesson stored successfully."@,
            Err(e) => r matches Err(x) && x.output@ == "Failed to store lesson: "@ + e@ && x.reason@ == e@,
        },
{
    match stored {
        Ok(_) => Ok(owned("Lesson stored successfully.")),
        Err(e) => {
            let mut o = chars_of("Failed to store lesson: ");
            append_str(&mut o, e.as_str());
            Err(ToolError { output: string_of(o.as_slice()), reason: e })
        },
    }
}

} // verus!
