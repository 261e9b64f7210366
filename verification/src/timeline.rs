//! The timeline search tool: which timelines a request searches, which lines
//! match, and the answer.  Timeline files are found and read outside this
//! crate; each line comes with its author and text when it is a JSON record
//! holding both.
use vstd::prelude::*;
use crate::containment::{lowercase, to_lowercase};
use crate::fmt::{decimal, decimal_chars};
use crate::models::{scope_user, Scope};
use crate::params::or_default;
use crate::tags::{extract_tag_chars, spec_extract_tag};
use crate::text::{
    append_chars, append_str, chars_of, contains, contains_exec, owned, parse_usize,
    spec_parse_unsigned, str_eq, string_of, words, words_of,
};

verus! {

/// How lines are chosen.
#[derive(Clone, Copy, Debug, PartialEq, Eq, Structural)]
pub enum SearchMode {
    /// Every line.
    Browse,
    /// Lines holding the whole query.
    Exact,
    /// Lines holding any word of the query.
    AnyWord,
}

/// A timeline search as a request gives it.
pub struct TimelineQuery {
    pub mode: SearchMode,
    /// The lower-cased query.
    pub query: String,
    /// How many results at most (at least one is kept once one matches).
    pub limit: usize,
    /// The lower-cased scope override, empty for none.
    pub scope: String,
}

/// The action, query, limit and scope of a request.
pub open spec fn spec_timeline_query(desc: Seq<char>) -> (SearchMode, Seq<char>, nat, Seq<char>) {
    let action = lowercase(or_default(spec_extract_tag(desc, "action:"@), "search"@));
    let query = lowercase(or_default(spec_extract_tag(desc, "query:"@), Seq::empty()));
    let limit = match spec_parse_unsigned(or_default(spec_extract_tag(desc, "limit:"@), "50"@), usize::MAX as nat) {
        Some(n) => n,
        None => 50,
    };
    let scope = lowercase(or_default(spec_extract_tag(desc, "scope:"@), Seq::empty()));
    let browse = action == "recent"@ || action == "browse"@ || action == "read"@ || (action == "search"@
        && query.len() == 0);
    let mode = if browse {
        SearchMode::Browse
    } else if action == "exact"@ {
        SearchMode::Exact
    } else {
        SearchMode::AnyWord
    };
    (mode, query, limit, scope)
}

fn tag_or(d: &[char], tag: &str, dflt: &str) -> (r: Vec<char>)
    ensures
        r@ == or_default(spec_extract_tag(d@, tag@), dflt@),
{
    let g = chars_of(tag);
    match extract_tag_chars(d, g.as_slice()) {
        Some(v) => v,
        None => chars_of(dflt),
    }
}

/// The timeline search that `desc` asks for.
pub fn parse_timeline_query(desc: &str) -> (r: TimelineQuery)
    ensures
        (r.mode, r.query@, r.limit as nat, r.scope@) == spec_timeline_query(desc@),
{
    let dv = chars_of(desc);
    let d = dv.as_slice();
    let action = to_lowercase(string_of(tag_or(d, "action:", "search").as_slice()).as_str());
    let e: Vec<char> = Vec::new();
    let q = match extract_tag_chars(d, chars_of("query:").as_slice()) {
        Some(v) => v,
        None => e,
    };
    assert(q@ == or_default(spec_extract_tag(d@, "query:"@), Seq::empty()));
    let query = to_lowercase(string_of(q.as_slice()).as_str());
    let l = tag_or(d, "limit:", "50");
    let limit = match parse_usize(l.as_slice()) {
        Some(n) => n,
        None => 50,
    };
    let s = match extract_tag_chars(d, chars_of("scope:").as_slice()) {
        Some(v) => v,
        None => Vec::new(),
    };
    assert(s@ == or_default(spec_extract_tag(d@, "scope:"@), Seq::empty()));
    let scope = to_lowercase(string_of(s.as_slice()).as_str());
    let a = action.as_str();
    let browse = str_eq(a, "recent") || str_eq(a, "browse") || str_eq(a, "read") || (str_eq(a, "search")
        && query.as_str().unicode_len() == 0);
    let mode = if browse {
        SearchMode::Browse
    } else if str_eq(a, "exact") {
        SearchMode::Exact
    } else {
        SearchMode::AnyWord
    };
    TimelineQuery { mode, query, limit, scope }
}

/// Where a search looks.
pub enum TimelineTarget {
    /// The timelines of every user of every public channel.
    AllPublic,
    /// The timelines of every user below this channel directory.
    UsersIn { dir: String },
    /// One timeline file.
    Single { path: String },
}

pub enum TargetSpec {
    AllPublic,
    UsersIn(Seq<char>),
    Single(Seq<char>),
}

impl View for TimelineTarget {
    type V = TargetSpec;

    open spec fn view(&self) -> TargetSpec {
        match self {
            TimelineTarget::AllPublic => TargetSpec::AllPublic,
            TimelineTarget::UsersIn { dir } => TargetSpec::UsersIn(dir@),
            TimelineTarget::Single { path } => TargetSpec::Single(path@),
        }
    }
}

/// The timeline of the requesting user in the scope.
pub open spec fn own_timeline(scope: Scope) -> Seq<char> {
    match scope {
        Scope::Public { channel_id, user_id } => "memory/public_"@ + channel_id@ + "/"@ + user_id@
            + "/timeline.jsonl"@,
        Scope::Private { user_id } => "memory/private_"@ + user_id@ + "/timeline.jsonl"@,
    }
}

/// Where a search with scope override `o` looks from `scope`: `all_public`
/// sweeps every public channel; `channel` every user of the current channel
/// (or the private timeline); any other name every user of that channel; no
/// override the requesting user's own timeline.
pub open spec fn spec_target(o: Seq<char>, scope: Scope) -> TargetSpec {
    if o == "all_public"@ {
        TargetSpec::AllPublic
    } else if o == "channel"@ {
        match scope {
            Scope::Public { channel_id, .. } => TargetSpec::UsersIn("memory/public_"@ + channel_id@),
            Scope::Private { .. } => TargetSpec::Single(own_timeline(scope)),
        }
    } else if o.len() > 0 {
        TargetSpec::UsersIn("memory/public_"@ + o)
    } else {
        TargetSpec::Single(own_timeline(scope))
    }
}

fn two(a: &str, b: &str) -> (r: String)
    ensures
        r@ == a@ + b@,
{
    let mut o = chars_of(a);
    append_str(&mut o, b);
    string_of(o.as_slice())
}

/// Where a search with scope override `scope_override` looks from `scope`.
pub fn timeline_target(scope_override: &str, scope: &Scope) -> (r: TimelineTarget)
    ensures
        r@ == spec_target(scope_override@, *scope),
{
    if str_eq(scope_override, "all_public") {
        TimelineTarget::AllPublic
    } else if str_eq(scope_override, "channel") {
        match scope {
            Scope::Public { channel_id, .. } => {
                TimelineTarget::UsersIn { dir: two("memory/public_", channel_id.as_str()) }
            },
            Scope::Private { .. } => TimelineTarget::Single { path: own_timeline_exec(scope) },
        }
    } else if scope_override.unicode_len() > 0 {
        TimelineTarget::UsersIn { dir: two("memory/public_", scope_override) }
    } else {
        TimelineTarget::Single { path: own_timeline_exec(scope) }
    }
}

fn own_timeline_exec(scope: &Scope) -> (r: String)
    ensures
        r@ == own_timeline(*scope),
{
    match scope {
        Scope::Public { channel_id, user_id } => {
            let mut o = chars_of("memory/public_");
            append_str(&mut o, channel_id.as_str());
            append_str(&mut o, "/");
            append_str(&mut o, user_id.as_str());
            append_str(&mut o, "/timeline.jsonl");
            string_of(o.as_slice())
        },
        Scope::Private { user_id } => {
            let mut o = chars_of("memory/private_");
            append_str(&mut o, user_id.as_str());
            append_str(&mut o, "/timeline.jsonl");
            string_of(o.as_slice())
        },
    }
}

// ───────────────────────── the search ─────────────────────────

/// A line of a timeline: its text, and its author and content when it is a
/// record holding both.
pub struct TimelineLine {
    pub text: String,
    pub entry: Option<(String, String)>,
}

/// A timeline file: the name of its directory (the user), and its lines when
/// it could be read.
pub struct TimelineFile {
    pub label: String,
    pub lines: Option<Vec<TimelineLine>>,
}

pub struct LineV {
    pub text: Seq<char>,
    pub entry: Option<(Seq<char>, Seq<char>)>,
}

impl View for TimelineLine {
    type V = LineV;

    open spec fn view(&self) -> LineV {
        LineV {
            text: self.text@,
            entry: match self.entry {
                Some((a, c)) => Some((a@, c@)),
                None => None,
            },
        }
    }
}

pub open spec fn lines_view(v: Seq<TimelineLine>) -> Seq<LineV> {
    v.map_values(|l: TimelineLine| l@)
}

pub struct FileV {
    pub label: Seq<char>,
    pub lines: Option<Seq<LineV>>,
}

impl View for TimelineFile {
    type V = FileV;

    open spec fn view(&self) -> FileV {
        FileV {
            label: self.label@,
            lines: match self.lines {
                Some(ls) => Some(lines_view(ls@)),
                None => None,
            },
        }
    }
}

pub open spec fn files_view(v: Seq<TimelineFile>) -> Seq<FileV> {
    v.map_values(|f: TimelineFile| f@)
}

/// Some term is in `l`.
pub open spec fn any_term(terms: Seq<Seq<char>>, l: Seq<char>) -> bool
    decreases terms.len(),
{
    terms.len() > 0 && (any_term(terms.drop_last(), l) || contains(l, terms.last()))
}

/// Whether a line is chosen: every line when browsing, else its lower-cased
/// text must hold the whole query (exact) or one of its words.
pub open spec fn line_matches(mode: SearchMode, query: Seq<char>, text: Seq<char>) -> bool {
    match mode {
        SearchMode::Browse => true,
        SearchMode::Exact => contains(lowercase(text), query),
        SearchMode::AnyWord => any_term(words(query), lowercase(text)),
    }
}

/// The result shown for a record: `author: content`, the author prefixed
/// with `[label]` when several timelines are searched.
pub open spec fn result_text(label: Seq<char>, multi: bool, author: Seq<char>, content: Seq<char>) -> Seq<char> {
    (if multi { "["@ + label + "] "@ + author } else { author }) + ": "@ + content
}

/// The results after scanning the lines `ls` newest (last) first, from the
/// results `res`: a chosen record is added, and the scan stops once an
/// addition brings the results to `limit`.
pub open spec fn scan_lines(
    res: Seq<Seq<char>>,
    ls: Seq<LineV>,
    mode: SearchMode,
    query: Seq<char>,
    label: Seq<char>,
    multi: bool,
    limit: nat,
) -> Seq<Seq<char>>
    decreases ls.len(),
{
    if ls.len() == 0 {
        res
    } else {
        let l = ls.last();
        let hit = line_matches(mode, query, l.text) && l.entry is Some;
        let res2 = if hit {
            res.push(result_text(label, multi, l.entry.unwrap().0, l.entry.unwrap().1))
        } else {
            res
        };
        if hit && res2.len() >= limit {
            res2
        } else {
            scan_lines(res2, ls.drop_last(), mode, query, label, multi, limit)
        }
    }
}

/// The results and the number of timelines read after searching `fs` in
/// order; the search stops after a file that brings the results to `limit`.
pub open spec fn search_files(
    res: Seq<Seq<char>>,
    searched: nat,
    fs: Seq<FileV>,
    mode: SearchMode,
    query: Seq<char>,
    multi: bool,
    limit: nat,
) -> (Seq<Seq<char>>, nat)
    decreases fs.len(),
{
    if fs.len() == 0 {
        (res, searched)
    } else {
        let f = fs[0];
        let (res2, s2) = match f.lines {
            Some(ls) => (scan_lines(res, ls, mode, query, f.label, multi, limit), searched + 1),
            None => (res, searched),
        };
        if res2.len() >= limit {
            (res2, s2)
        } else {
            search_files(res2, s2, fs.drop_first(), mode, query, multi, limit)
        }
    }
}

/// `rs` newest first: the last result first, separated by blank lines.
pub open spec fn joined_back(rs: Seq<Seq<char>>) -> Seq<char>
    decreases rs.len(),
{
    if rs.len() == 0 {
        Seq::empty()
    } else if rs.len() == 1 {
        rs[0]
    } else {
        joined_back(rs.drop_first()) + "\n\n"@ + rs[0]
    }
}

/// The answer to a search of the timelines `fs`.
pub open spec fn spec_timeline_answer(fs: Seq<FileV>, mode: SearchMode, query: Seq<char>, limit: nat) -> Seq<char> {
    if fs.len() == 0 {
        "No timelines found for the requested scope."@
    } else {
        let (res, searched) = search_files(Seq::empty(), 0, fs, mode, query, fs.len() > 1, limit);
        if searched == 0 {
            "No long-term timeline exists for this scope yet."@
        } else if res.len() == 0 {
            "No matches found for '"@ + query + "' across "@ + decimal(searched)
                + " timeline(s) searched."@
        } else {
            "Timeline Search Results for '"@ + query + "' ("@ + decimal(searched)
                + " timeline(s) searched):\n\n"@ + joined_back(res)
        }
    }
}

fn line_matches_exec(mode: SearchMode, query: &str, terms: &Vec<Vec<char>>, text: &str) -> (r: bool)
    requires
        terms@.len() == words(query@).len(),
        forall|k: int| 0 <= k < terms@.len() ==> #[trigger] terms@[k]@ == words(query@)[k],
    ensures
        r == line_matches(mode, query@, text@),
{
    match mode {
        SearchMode::Browse => true,
        SearchMode::Exact => {
            let l = to_lowercase(text);
            let lc = chars_of(l.as_str());
            let q = chars_of(query);
            contains_exec(lc.as_slice(), q.as_slice())
        },
        SearchMode::AnyWord => {
            let l = to_lowercase(text);
            let lc = chars_of(l.as_str());
            let ghost ws = words(query@);
            let mut found = false;
            let mut i: usize = 0;
            while i < terms.len()
                invariant
                    i <= terms@.len(),
                    ws == words(query@),
                    terms@.len() == ws.len(),
                    forall|k: int| 0 <= k < terms@.len() ==> #[trigger] terms@[k]@ == ws[k],
                    found == any_term(ws.subrange(0, i as int), lc@),
                decreases terms.len() - i,
            {
                assert(ws.subrange(0, i + 1).drop_last() =~= ws.subrange(0, i as int));
                assert(ws.subrange(0, i + 1).last() == terms@[i as int]@);
                let h = contains_exec(lc.as_slice(), terms[i].as_slice());
                found = found || h;
                i = i + 1;
            }
            assert(ws.subrange(0, i as int) =~= ws);
            found
        },
    }
}

fn result_exec(label: &str, multi: bool, author: &str, content: &str) -> (r: String)
    ensures
        r@ == result_text(label@, multi, author@, content@),
{
    let mut o: Vec<char> = Vec::new();
    if multi {
        append_str(&mut o, "[");
        append_str(&mut o, label);
        append_str(&mut o, "] ");
    }
    append_str(&mut o, author);
    append_str(&mut o, ": ");
    append_str(&mut o, content);
    string_of(o.as_slice())
}

fn scan_exec(
    res: &mut Vec<String>,
    ls: &Vec<TimelineLine>,
    mode: SearchMode,
    query: &str,
    terms: &Vec<Vec<char>>,
    label: &str,
    multi: bool,
    limit: usize,
)
    requires
        terms@.len() == words(query@).len(),
        forall|k: int| 0 <= k < terms@.len() ==> #[trigger] terms@[k]@ == words(query@)[k],
    ensures
        strs(final(res)@) == scan_lines(strs(old(res)@), lines_view(ls@), mode, query@, label@, multi, limit as nat),
{
    let ghost lv = lines_view(ls@);
    let ghost r0 = strs(res@);
    let mut i: usize = ls.len();
    assert(lv.subrange(0, i as int) =~= lv);
    while i > 0
        invariant
            i <= ls@.len(),
            lv == lines_view(ls@),
            r0 == strs(old(res)@),
            terms@.len() == words(query@).len(),
            forall|k: int| 0 <= k < terms@.len() ==> #[trigger] terms@[k]@ == words(query@)[k],
            scan_lines(r0, lv, mode, query@, label@, multi, limit as nat) == scan_lines(
                strs(res@),
                lv.subrange(0, i as int),
                mode,
                query@,
                label@,
                multi,
                limit as nat,
            ),
        decreases i,
    {
        let ghost sub = lv.subrange(0, i as int);
        assert(sub.drop_last() =~= lv.subrange(0, i - 1));
        assert(sub.last() == ls@[i - 1]@);
        let l = &ls[i - 1];
        let m = line_matches_exec(mode, query, terms, l.text.as_str());
        match &l.entry {
            Some((a, c)) => {
                if m {
                    let ghost before = strs(res@);
                    res.push(result_exec(label, multi, a.as_str(), c.as_str()));
                    assert(strs(res@) =~= before.push(result_text(label@, multi, a@, c@)));
                    if res.len() >= limit {
                        assert(scan_lines(before, sub, mode, query@, label@, multi, limit as nat) == strs(res@));
                        return;
                    }
                }
            },
            None => {},
        }
        i = i - 1;
    }
}

pub open spec fn strs(v: Seq<String>) -> Seq<Seq<char>> {
    v.map_values(|s: String| s@)
}

/// The answer to a search of the timelines `files` (one per timeline
/// targeted, in order) with the given mode, lower-cased query and limit.
pub fn timeline_answer(files: &Vec<TimelineFile>, mode: SearchMode, query: &str, limit: usize) -> (r: String)
    ensures
        r@ == spec_timeline_answer(files_view(files@), mode, query@, limit as nat),
{
    let ghost fv = files_view(files@);
    if files.len() == 0 {
        return owned("No timelines found for the requested scope.");
    }
    let q = chars_of(query);
    let terms = words_of(q.as_slice());
    let multi = files.len() > 1;
    let mut res: Vec<String> = Vec::new();
    let mut searched: usize = 0;
    let mut j: usize = 0;
    let mut done = false;
    assert(fv.subrange(0, fv.len() as int) =~= fv);
    assert(strs(res@) =~= Seq::<Seq<char>>::empty());
    let ghost target = search_files(Seq::empty(), 0, fv, mode, query@, multi, limit as nat);
    while !done && j < files.len()
        invariant
            j <= files@.len(),
            fv == files_view(files@),
            multi == (files@.len() > 1),
            target == search_files(Seq::empty(), 0, fv, mode, query@, multi, limit as nat),
            terms@.len() == words(query@).len(),
            forall|k: int| 0 <= k < terms@.len() ==> #[trigger] terms@[k]@ == words(query@)[k],
            !done ==> target == search_files(
                strs(res@),
                searched as nat,
                fv.subrange(j as int, fv.len() as int),
                mode,
                query@,
                multi,
                limit as nat,
            ),
            done ==> target == (strs(res@), searched as nat),
            searched <= j,
        decreases files@.len() - j,
    {
        let ghost rest = fv.subrange(j as int, fv.len() as int);
        assert(rest.drop_first() =~= fv.subrange(j + 1, fv.len() as int));
        assert(rest[0] == files@[j as int]@);
        let f = &files[j];
        match &f.lines {
            Some(ls) => {
                scan_exec(&mut res, ls, mode, query, &terms, f.label.as_str(), multi, limit);
                searched = searched + 1;
            },
            None => {},
        }
        j = j + 1;
        if res.len() >= limit {
            done = true;
        }
    }
    if !done {
        assert(fv.subrange(j as int, fv.len() as int).len() == 0);
    }
    let ghost outcome = search_files(Seq::empty(), 0, fv, mode, query@, multi, limit as nat);
    let mut o: Vec<char> = Vec::new();
    if searched == 0 {
        return owned("No long-term timeline exists for this scope yet.");
    }
    if res.len() == 0 {
        append_str(&mut o, "No matches found for '");
        append_str(&mut o, query);
        append_str(&mut o, "' across ");
        append_chars(&mut o, decimal_chars(searched as u64).as_slice());
        append_str(&mut o, " timeline(s) searched.");
        return string_of(o.as_slice());
    }
    append_str(&mut o, "Timeline Search Results for '");
    append_str(&mut o, query);
    append_str(&mut o, "' (");
    append_chars(&mut o, decimal_chars(searched as u64).as_slice());
    append_str(&mut o, " timeline(s) searched):\n\n");
    let ghost head = o@;
    let ghost rv = strs(res@);
    let n = res.len();
    let mut i: usize = n;
    while i > 0
        invariant
            i <= n,
            n == res@.len(),
            rv == strs(res@),
            n > 0,
            i < n ==> o@ == head + joined_back(rv.subrange(i as int, n as int)),
            i == n ==> o@ == head,
        decreases i,
    {
        let ghost sub = rv.subrange(i - 1, n as int);
        assert(sub.drop_first() =~= rv.subrange(i as int, n as int));
        assert(sub[0] == res@[i - 1]@);
        if i < n {
            append_str(&mut o, "\n\n");
        }
        append_str(&mut o, res[i - 1].as_str());
        assert(o@ =~= head + joined_back(sub));
        i = i - 1;
    }
    assert(rv.subrange(0, n as int) =~= rv);
    string_of(o.as_slice())
}

} // verus!
