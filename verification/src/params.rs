//! Reading typed parameters out of task descriptions: first words with a
//! default, integers with a default, and the `content:` remainder.
use vstd::prelude::*;
use crate::tags::{extract_tag_chars, spec_extract_tag};
use crate::text::{
    chars_of, find, find_exec, first_word, first_word_of, parse_i32, parse_u64, parse_usize,
    slice_copy, spec_parse_signed, spec_parse_unsigned, tail, trim, trim_exec,
};

verus! {

/// `o`, or `d` when it is absent.
pub open spec fn or_default(o: Option<Seq<char>>, d: Seq<char>) -> Seq<char> {
    match o {
        Some(x) => x,
        None => d,
    }
}

/// The first word of `o` (or of `d` when `o` is absent), or `d` when there is
/// no word: what `o.unwrap_or(d).split_whitespace().next().unwrap_or(d)` gives.
pub open spec fn spec_word_or(o: Option<Seq<char>>, d: Seq<char>) -> Seq<char> {
    match first_word(or_default(o, d)) {
        Some(w) => w,
        None => d,
    }
}

/// The value of the first-convention tag `tag` in `t`.
pub fn tag_chars(t: &[char], tag: &str) -> (r: Option<Vec<char>>)
    ensures
        match spec_extract_tag(t@, tag@) {
            Some(v) => r matches Some(x) && x@ == v,
            None => r is None,
        },
{
    let g = chars_of(tag);
    extract_tag_chars(t, g.as_slice())
}

/// The first word of `o` (or of `d`), or `d`.
pub fn word_or(o: Option<Vec<char>>, d: &str) -> (r: Vec<char>)
    ensures
        r@ == spec_word_or(
            match o {
                Some(x) => Some(x@),
                None => None,
            },
            d@,
        ),
{
    let ghost ov = match &o {
        Some(x) => Some(x@),
        None => None::<Seq<char>>,
    };
    let dc = chars_of(d);
    let v = match o {
        Some(x) => x,
        None => {
            let c = slice_copy(dc.as_slice(), 0, dc.len());
            assert(c@ =~= d@);
            c
        },
    };
    assert(v@ == or_default(ov, d@));
    match first_word_of(v.as_slice()) {
        Some(w) => w,
        None => dc,
    }
}

/// The whole value of the tag `tag` of `desc`, `d` when the tag is absent.
pub fn tag_or(desc: &[char], tag: &str, d: &str) -> (r: Vec<char>)
    ensures
        r@ == or_default(spec_extract_tag(desc@, tag@), d@),
{
    match tag_chars(desc, tag) {
        Some(v) => v,
        None => chars_of(d),
    }
}

/// The first word of the tag `tag` of `desc`, defaulting to `d`.
pub open spec fn spec_tag_word(desc: Seq<char>, tag: Seq<char>, d: Seq<char>) -> Seq<char> {
    spec_word_or(spec_extract_tag(desc, tag), d)
}

/// The first word of the tag `tag` of `desc`, defaulting to `d`.
pub fn tag_word(desc: &[char], tag: &str, d: &str) -> (r: Vec<char>)
    ensures
        r@ == spec_tag_word(desc@, tag@, d@),
{
    let v = tag_chars(desc, tag);
    word_or(v, d)
}

/// An `i32` read from the first word of a tag, `d` when it does not parse.
pub open spec fn spec_tag_i32(desc: Seq<char>, tag: Seq<char>, dtext: Seq<char>, d: int) -> int {
    match spec_parse_signed(spec_tag_word(desc, tag, dtext), i32::MIN as int, i32::MAX as int) {
        Some(v) => v,
        None => d,
    }
}

pub fn tag_i32(desc: &[char], tag: &str, dtext: &str, d: i32) -> (r: i32)
    ensures
        r as int == spec_tag_i32(desc@, tag@, dtext@, d as int),
{
    let w = tag_word(desc, tag, dtext);
    match parse_i32(w.as_slice()) {
        Some(v) => v,
        None => d,
    }
}

/// A `u64` read from the first word of a tag, `d` when it does not parse.
pub open spec fn spec_tag_u64(desc: Seq<char>, tag: Seq<char>, dtext: Seq<char>, d: nat) -> nat {
    match spec_parse_unsigned(spec_tag_word(desc, tag, dtext), u64::MAX as nat) {
        Some(v) => v,
        None => d,
    }
}

pub fn tag_u64(desc: &[char], tag: &str, dtext: &str, d: u64) -> (r: u64)
    ensures
        r as nat == spec_tag_u64(desc@, tag@, dtext@, d as nat),
{
    let w = tag_word(desc, tag, dtext);
    match parse_u64(w.as_slice()) {
        Some(v) => v,
        None => d,
    }
}

/// A `usize` read from the whole value of a tag (not just its first word),
/// `d` when the tag is absent or does not parse.
pub open spec fn spec_tag_usize(desc: Seq<char>, tag: Seq<char>, d: nat) -> nat {
    match spec_extract_tag(desc, tag) {
        Some(v) => match spec_parse_unsigned(v, usize::MAX as nat) {
            Some(n) => n,
            None => d,
        },
        None => d,
    }
}

pub fn tag_usize(desc: &[char], tag: &str, d: usize) -> (r: usize)
    ensures
        r as nat == spec_tag_usize(desc@, tag@, d as nat),
{
    match tag_chars(desc, tag) {
        Some(v) => match parse_usize(v.as_slice()) {
            Some(n) => n,
            None => d,
        },
        None => d,
    }
}

/// Everything after the first `marker`, trimmed; `None` when `marker` does not
/// occur.
pub open spec fn spec_after_marker(desc: Seq<char>, marker: Seq<char>) -> Option<Seq<char>> {
    match find(desc, marker) {
        Some(i) => Some(trim(tail(desc, i + marker.len()))),
        None => None,
    }
}

pub fn after_marker(desc: &[char], marker: &str) -> (r: Option<Vec<char>>)
    ensures
        match spec_after_marker(desc@, marker@) {
            Some(v) => r matches Some(x) && x@ == v,
            None => r is None,
        },
{
    let m = chars_of(marker);
    match find_exec(desc, m.as_slice()) {
        Some(i) => {
            let ml = m.len();
            assert(ml == m@.len() && i + ml <= desc@.len() && desc@.len() == desc.len());
            let rest = slice_copy(desc, i + ml, desc.len());
            assert(rest@ =~= tail(desc@, i + marker@.len()));
            Some(trim_exec(rest.as_slice()))
        },
        None => None,
    }
}

} // verus!
