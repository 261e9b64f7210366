//! The contributors tool: the project's creator, and a summary of the commit
//! history that `git` prints (read outside this crate).
use vstd::prelude::*;
use crate::models::{tool_error, ToolError};
use crate::params::or_default;
use crate::process::{lines_of, text_lines};
use crate::tags::{extract_tag_chars, spec_extract_tag};
use crate::text::{
    append_chars, append_str, chars_of, find, find_char, owned, slice_copy, str_eq, string_of,
    trim, trim_exec,
};

verus! {

/// `a` comes before `b` in lexicographic order of characters (the order
/// `str` sorts in).
pub open spec fn lex_lt(a: Seq<char>, b: Seq<char>) -> bool
    decreases a.len(),
{
    if b.len() == 0 {
        false
    } else if a.len() == 0 {
        true
    } else if a[0] != b[0] {
        (a[0] as u32) < (b[0] as u32)
    } else {
        lex_lt(a.drop_first(), b.drop_first())
    }
}

fn lex_lt_exec(a: &[char], b: &[char]) -> (r: bool)
    ensures
        r == lex_lt(a@, b@),
{
    let mut i: usize = 0;
    assert(a@.subrange(0, a@.len() as int) =~= a@);
    assert(b@.subrange(0, b@.len() as int) =~= b@);
    while i < a.len() && i < b.len()
        invariant
            i <= a@.len(),
            i <= b@.len(),
            a@.subrange(0, i as int) == b@.subrange(0, i as int),
            lex_lt(a@, b@) == lex_lt(a@.subrange(i as int, a@.len() as int), b@.subrange(i as int, b@.len() as int)),
        decreases a.len() - i,
    {
        let ghost sa = a@.subrange(i as int, a@.len() as int);
        let ghost sb = b@.subrange(i as int, b@.len() as int);
        assert(sa.drop_first() =~= a@.subrange(i + 1, a@.len() as int));
        assert(sb.drop_first() =~= b@.subrange(i + 1, b@.len() as int));
        assert(sa[0] == a@[i as int] && sb[0] == b@[i as int]);
        if a[i] != b[i] {
            return (a[i] as u32) < (b[i] as u32);
        }
        assert(a@.subrange(0, i + 1) =~= a@.subrange(0, i as int).push(a@[i as int]));
        assert(b@.subrange(0, i + 1) =~= b@.subrange(0, i as int).push(b@[i as int]));
        i = i + 1;
    }
    i < b.len()
}

/// The non-blank lines of `s`.
pub open spec fn nonblank(ls: Seq<Seq<char>>) -> Seq<Seq<char>>
    decreases ls.len(),
{
    if ls.len() == 0 {
        ls
    } else {
        let p = nonblank(ls.drop_last());
        if trim(ls.last()).len() > 0 {
            p.push(ls.last())
        } else {
            p
        }
    }
}

/// The least of `ls` in lexicographic order (the first after sorting).
pub open spec fn least(ls: Seq<Seq<char>>) -> Seq<char>
    decreases ls.len(),
{
    if ls.len() <= 1 {
        if ls.len() == 1 { ls[0] } else { Seq::empty() }
    } else {
        let m = least(ls.drop_last());
        if lex_lt(ls.last(), m) { ls.last() } else { m }
    }
}

/// The greatest of `ls` in lexicographic order (the last after sorting).
pub open spec fn greatest(ls: Seq<Seq<char>>) -> Seq<char>
    decreases ls.len(),
{
    if ls.len() <= 1 {
        if ls.len() == 1 { ls[0] } else { Seq::empty() }
    } else {
        let m = greatest(ls.drop_last());
        if lex_lt(m, ls.last()) { ls.last() } else { m }
    }
}

/// `s` with every `|` replaced by a space.
pub open spec fn bars_to_spaces(s: Seq<char>) -> Seq<char> {
    s.map_values(|c: char| if c == '|' { ' ' } else { c })
}

/// The part of a commit line before its first `|` (the author date).
pub open spec fn date_of(s: Seq<char>) -> Seq<char> {
    match find(s, seq!['|']) {
        Some(i) => s.subrange(0, i),
        None => s,
    }
}

/// The timeline section drawn from `git log` lines `date|hash|subject`:
/// the earliest and latest commit by author date, and the span between.
pub open spec fn spec_history_lines(log: Seq<char>) -> Seq<char> {
    let ls = nonblank(text_lines(log));
    if ls.len() == 0 {
        Seq::empty()
    } else {
        let first = least(ls);
        let latest = greatest(ls);
        "- **First commit (by author date):** "@ + bars_to_spaces(first) + "\n"@
            + "- **Latest commit (by author date):** "@ + bars_to_spaces(latest) + "\n"@
            + "- **Development span:** "@ + trim(date_of(first)) + " → "@ + trim(date_of(latest)) + "\n"@
    }
}

fn bars_exec(s: &[char]) -> (r: Vec<char>)
    ensures
        r@ == bars_to_spaces(s@),
{
    let mut o: Vec<char> = Vec::new();
    let mut i: usize = 0;
    while i < s.len()
        invariant
            i <= s@.len(),
            o@ == bars_to_spaces(s@.subrange(0, i as int)),
        decreases s.len() - i,
    {
        let c = if s[i] == '|' { ' ' } else { s[i] };
        o.push(c);
        assert(bars_to_spaces(s@.subrange(0, i + 1)) =~= bars_to_spaces(s@.subrange(0, i as int)).push(c));
        i = i + 1;
    }
    assert(s@.subrange(0, i as int) =~= s@);
    o
}

fn date_exec(s: &[char]) -> (r: Vec<char>)
    ensures
        r@ == date_of(s@),
{
    match find_char(s, '|') {
        Some(i) => slice_copy(s, 0, i),
        None => slice_copy(s, 0, s.len()),
    }
}

/// The timeline section for the output of `git log`.
pub fn history_lines(log: &str) -> (r: String)
    ensures
        r@ == spec_history_lines(log@),
{
    let c = chars_of(log);
    let all = lines_of(c.as_slice());
    let ghost al = text_lines(log@);
    let mut first: Vec<char> = Vec::new();
    let mut latest: Vec<char> = Vec::new();
    let mut n: usize = 0;
    let mut i: usize = 0;
    while i < all.len()
        invariant
            i <= all@.len(),
            al == text_lines(log@),
            all@.len() == al.len(),
            forall|k: int| 0 <= k < all@.len() ==> #[trigger] all@[k]@ == al[k],
            n == nonblank(al.subrange(0, i as int)).len(),
            n > 0 ==> first@ == least(nonblank(al.subrange(0, i as int))),
            n > 0 ==> latest@ == greatest(nonblank(al.subrange(0, i as int))),
            n <= i,
        decreases all.len() - i,
    {
        let ghost pre = al.subrange(0, i as int);
        assert(al.subrange(0, i + 1).drop_last() =~= pre);
        assert(al.subrange(0, i + 1).last() == all@[i as int]@);
        let line = all[i].as_slice();
        let t = trim_exec(line);
        if t.len() > 0 {
            let ghost nb = nonblank(pre);
            let ghost nb2 = nb.push(all@[i as int]@);
            assert(nb2.drop_last() =~= nb);
            if n == 0 {
                first = slice_copy(line, 0, line.len());
                latest = slice_copy(line, 0, line.len());
            } else {
                if lex_lt_exec(line, first.as_slice()) {
                    first = slice_copy(line, 0, line.len());
                }
                if lex_lt_exec(latest.as_slice(), line) {
                    latest = slice_copy(line, 0, line.len());
                }
            }
            n = n + 1;
        }
        i = i + 1;
    }
    assert(al.subrange(0, i as int) =~= al);
    let mut o: Vec<char> = Vec::new();
    if n > 0 {
        append_str(&mut o, "- **First commit (by author date):** ");
        append_chars(&mut o, bars_exec(first.as_slice()).as_slice());
        append_str(&mut o, "\n");
        append_str(&mut o, "- **Latest commit (by author date):** ");
        append_chars(&mut o, bars_exec(latest.as_slice()).as_slice());
        append_str(&mut o, "\n");
        append_str(&mut o, "- **Development span:** ");
        let d1 = date_exec(first.as_slice());
        append_chars(&mut o, trim_exec(d1.as_slice()).as_slice());
        append_str(&mut o, " → ");
        let d2 = date_exec(latest.as_slice());
        append_chars(&mut o, trim_exec(d2.as_slice()).as_slice());
        append_str(&mut o, "\n");
    }
    string_of(o.as_slice())
}

/// The contributor lines drawn from `git shortlog` output: each non-blank line
/// trimmed, as a list item.
pub open spec fn contributor_items(ls: Seq<Seq<char>>) -> Seq<char>
    decreases ls.len(),
{
    if ls.len() == 0 {
        Seq::empty()
    } else {
        contributor_items(ls.drop_last()) + if trim(ls.last()).len() > 0 {
            "- "@ + trim(ls.last()) + "\n"@
        } else {
            Seq::empty()
        }
    }
}

/// The contributors section for the output of `git shortlog`.
pub open spec fn spec_contributor_lines(shortlog: Seq<char>) -> Seq<char> {
    if trim(shortlog).len() == 0 {
        "- No contributors found in git history.\n"@
    } else {
        contributor_items(text_lines(shortlog))
    }
}

/// The contributors section for the output of `git shortlog`.
pub fn contributor_lines(shortlog: &str) -> (r: String)
    ensures
        r@ == spec_contributor_lines(shortlog@),
{
    let c = chars_of(shortlog);
    if trim_exec(c.as_slice()).len() == 0 {
        return owned("- No contributors found in git history.\n");
    }
    let all = lines_of(c.as_slice());
    let ghost al = text_lines(shortlog@);
    let mut o: Vec<char> = Vec::new();
    let mut i: usize = 0;
    while i < all.len()
        invariant
            i <= all@.len(),
            al == text_lines(shortlog@),
            all@.len() == al.len(),
            forall|k: int| 0 <= k < all@.len() ==> #[trigger] all@[k]@ == al[k],
            o@ == contributor_items(al.subrange(0, i as int)),
        decreases all.len() - i,
    {
        assert(al.subrange(0, i + 1).drop_last() =~= al.subrange(0, i as int));
        assert(al.subrange(0, i + 1).last() == all@[i as int]@);
        let t = trim_exec(all[i].as_slice());
        let ghost before = o@;
        if t.len() > 0 {
            append_str(&mut o, "- ");
            append_chars(&mut o, t.as_slice());
            append_str(&mut o, "\n");
        }
        assert(o@ =~= contributor_items(al.subrange(0, i + 1)));
        i = i + 1;
    }
    assert(al.subrange(0, i as int) =~= al);
    string_of(o.as_slice())
}

/// The fixed head of the contributors report.
pub const CREATOR_TEXT: &'static str = "## HIVE Project — Creator & Contributors\n\n### Creator\n- **Name:** Maria Smith\n- **GitHub:** MettaMazza\n- **Discord:** metta_mazza\n- **Role:** Lead Developer / Architect\n\n### Development Timeline (from git history)\n";

/// Whether the contributors tool serves `desc`: its action (`info` by
/// default) must be `info`, `creator` or `about`.
pub fn contributors_action(desc: &str) -> (r: Result<(), ToolError>)
    ensures
        ({
            let a = or_default(spec_extract_tag(desc@, "action:"@), "info"@);
            if a == "info"@ || a == "creator"@ || a == "about"@ {
                r is Ok
            } else {
                r matches Err(e) && e.output@ == "Unknown action '"@ + a
                    + "'. Use action:[info] to get creator and contributor details."@ && e.reason@ == "Bad Action"@
            }
        }),
{
    let d = chars_of(desc);
    let g = chars_of("action:");
    let a = match extract_tag_chars(d.as_slice(), g.as_slice()) {
        Some(v) => string_of(v.as_slice()),
        None => owned("info"),
    };
    let s = a.as_str();
    if str_eq(s, "info") || str_eq(s, "creator") || str_eq(s, "about") {
        Ok(())
    } else {
        let mut o: Vec<char> = Vec::new();
        append_str(&mut o, "Unknown action '");
        append_str(&mut o, s);
        append_str(&mut o, "'. Use action:[info] to get creator and contributor details.");
        Err(ToolError { output: string_of(o.as_slice()), reason: owned("Bad Action") })
    }
}


/// The whole contributors report, from what the three history commands
/// printed (`None` where a command could not be run): the fixed head, the
/// development timeline, the commit count, and the contributors.
pub open spec fn spec_contributors_report(log: Option<Seq<char>>, count: Option<Seq<char>>, shortlog: Option<Seq<char>>) -> Seq<char> {
    CREATOR_TEXT@ + match log {
        Some(l) => spec_history_lines(l),
        None => "- Commit history: unavailable\n"@,
    } + match count {
        Some(c) => "- **Total commits:** "@ + trim(c) + "\n"@,
        None => Seq::empty(),
    } + "\n### All Contributors (from git shortlog)\n"@ + match shortlog {
        Some(s) => spec_contributor_lines(s),
        None => "- Git shortlog unavailable.\n"@,
    }
}

/// The whole contributors report.
pub fn contributors_report(log: Option<&str>, count: Option<&str>, shortlog: Option<&str>) -> (r: String)
    ensures
        r@ == spec_contributors_report(
            match log {
                Some(l) => Some(l@),
                None => None,
            },
            match count {
                Some(c) => Some(c@),
                None => None,
            },
            match shortlog {
                Some(s) => Some(s@),
                None => None,
            },
        ),
{
    let mut o = chars_of(CREATOR_TEXT);
    match log {
        Some(l) => {
            let h = history_lines(l);
            append_str(&mut o, h.as_str());
        },
        None => append_str(&mut o, "- Commit history: unavailable\n"),
    }
    match count {
        Some(c) => {
            append_str(&mut o, "- **Total commits:** ");
            let cv = chars_of(c);
            let t = trim_exec(cv.as_slice());
            append_chars(&mut o, t.as_slice());
            append_str(&mut o, "\n");
        },
        None => {},
    }
    append_str(&mut o, "\n### All Contributors (from git shortlog)\n");
    match shortlog {
        Some(s) => {
            let c = contributor_lines(s);
            append_str(&mut o, c.as_str());
        },
        None => append_str(&mut o, "- Git shortlog unavailable.\n"),
    }
    string_of(o.as_slice())
}

} // verus!
