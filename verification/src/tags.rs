//! Extraction of `tag[value]` parameters from the free-text task descriptions
//! that the planner writes for each tool.
//!
//! Four conventions are in use across the tools:
//! * [`extract_tag`]: the value runs from the end of the tag to the first `]`
//!   (or the end of the text); it is trimmed, then stripped of brackets.
//! * [`extract_bracket_tag`]: the tag must be followed directly by `[`; the value
//!   runs to the first `]` and is trimmed.
//! * [`extract_named_tag`]: the key is followed by `:[`; the value runs to the
//!   first `]` and is trimmed.
//! * [`extract_last_bracket`]: the key is followed by `:[`; the value runs to the
//!   last `]` of the text, so it may hold brackets, and is trimmed.
//!
//! [`extract_payload`] and [`find_matching_bracket`] match brackets by depth.
use vstd::prelude::*;
use vstd::utf8::encode_utf8;
use crate::text::{
    chars_of, concat, find, find_char, find_exec, lemma_find_spec, occurs_at, rfind_char,
    rfind_char_exec, slice_copy, string_of, strip, strip_exec, tail, trim, trim_exec, CharClass,
};

verus! {

/// Where a value ends inside `rest`: at its first `]`, else at its end.
pub open spec fn first_close_or_end(rest: Seq<char>) -> int {
    match find(rest, seq![']']) {
        Some(e) => e,
        None => rest.len() as int,
    }
}

/// The value of `tag` in `text` under the first convention.
pub open spec fn spec_extract_tag(text: Seq<char>, tag: Seq<char>) -> Option<Seq<char>> {
    match find(text, tag) {
        Some(i) => {
            let rest = tail(text, i + tag.len());
            Some(strip(trim(rest.subrange(0, first_close_or_end(rest))), CharClass::Bracket))
        },
        None => None,
    }
}

/// The value of `tag` in `desc` under the second convention.
pub open spec fn spec_bracket_tag(desc: Seq<char>, tag: Seq<char>) -> Option<Seq<char>> {
    match find(desc, tag) {
        Some(i) => {
            let after = tail(desc, i + tag.len());
            if after.len() > 0 && after[0] == '[' {
                match find(after, seq![']']) {
                    Some(e) => Some(trim(after.subrange(1, e))),
                    None => None,
                }
            } else {
                None
            }
        },
        None => None,
    }
}

/// `key:[`.
pub open spec fn key_open(key: Seq<char>) -> Seq<char> {
    key + seq![':', '[']
}

/// The value of `key` in `desc` under the third convention.
pub open spec fn spec_named_tag(desc: Seq<char>, key: Seq<char>) -> Option<Seq<char>> {
    match find(desc, key_open(key)) {
        Some(i) => {
            let after = tail(desc, i + key.len() + 2);
            match find(after, seq![']']) {
                Some(e) => Some(trim(after.subrange(0, e))),
                None => None,
            }
        },
        None => None,
    }
}

/// The value of `key` in `desc` under the fourth convention.
pub open spec fn spec_last_bracket(desc: Seq<char>, key: Seq<char>) -> Option<Seq<char>> {
    match find(desc, key_open(key)) {
        Some(i) => {
            let after = tail(desc, i + key.len() + 2);
            match rfind_char(after, ']') {
                Some(e) => Some(trim(after.subrange(0, e))),
                None => None,
            }
        },
        None => None,
    }
}

/// Scanning `s` from position `i` with `depth` brackets open, the position of the
/// `]` that closes the outermost one.
pub open spec fn close_from(s: Seq<char>, i: int, depth: int) -> Option<int>
    decreases s.len() - i,
{
    if i < 0 || i >= s.len() {
        None
    } else if s[i] == '[' {
        close_from(s, i + 1, depth + 1)
    } else if s[i] == ']' {
        if depth - 1 == 0 {
            Some(i)
        } else {
            close_from(s, i + 1, depth - 1)
        }
    } else {
        close_from(s, i + 1, depth)
    }
}

/// The position of the `]` that matches a `[` standing just before `s`.
pub open spec fn spec_matching_bracket(s: Seq<char>) -> Option<int> {
    close_from(s, 0, 1)
}

/// The bracket-matched payload that follows `prefix` in `desc`.
pub open spec fn spec_payload(desc: Seq<char>, prefix: Seq<char>) -> Option<Seq<char>> {
    match find(desc, prefix) {
        Some(i) => {
            let after = tail(desc, i + prefix.len());
            match spec_matching_bracket(after) {
                Some(e) => Some(after.subrange(0, e)),
                None => None,
            }
        },
        None => None,
    }
}

/// Relates an `Option<String>` result to its specified value.
pub open spec fn opt_str_is(r: Option<String>, v: Option<Seq<char>>) -> bool {
    match v {
        Some(s) => r matches Some(x) && x@ == s,
        None => r is None,
    }
}

/// The value of `tag` in `text`: from the end of the first occurrence of `tag`
/// to the first `]` after it (or the end of the text), trimmed of white space and
/// then of `[` and `]`.  `None` when `tag` does not occur.
pub fn extract_tag(text: &str, tag: &str) -> (r: Option<String>)
    ensures
        opt_str_is(r, spec_extract_tag(text@, tag@)),
{
    let t = chars_of(text);
    let g = chars_of(tag);
    match extract_tag_chars(t.as_slice(), g.as_slice()) {
        Some(v) => Some(string_of(v.as_slice())),
        None => None,
    }
}

/// The value of `tag` in `desc` when the tag is followed directly by `[`: the
/// text up to the first `]`, trimmed.  `None` when `tag` does not occur, is not
/// followed by `[`, or no `]` follows.
pub fn extract_bracket_tag(desc: &str, tag: &str) -> (r: Option<String>)
    ensures
        opt_str_is(r, spec_bracket_tag(desc@, tag@)),
{
    let t = chars_of(desc);
    let g = chars_of(tag);
    match extract_bracket_tag_chars(t.as_slice(), g.as_slice()) {
        Some(v) => Some(string_of(v.as_slice())),
        None => None,
    }
}

/// The characters of `key:[`.
fn key_open_exec(key: &[char]) -> (r: Vec<char>)
    ensures
        r@ == key_open(key@),
{
    let suffix = vec![':', '['];
    let r = concat(key, suffix.as_slice());
    assert(suffix@ =~= seq![':', '[']);
    r
}

/// The value of `key` written as `key:[value]`: the text after the first `key:[`
/// up to the next `]`, trimmed.  `None` when `key:[` does not occur or no `]`
/// follows it.
pub fn extract_named_tag(desc: &str, key: &str) -> (r: Option<String>)
    ensures
        opt_str_is(r, spec_named_tag(desc@, key@)),
{
    let t = chars_of(desc);
    let g = chars_of(key);
    match extract_named_tag_chars(t.as_slice(), g.as_slice()) {
        Some(v) => Some(string_of(v.as_slice())),
        None => None,
    }
}

/// The value of `key` written as `key:[value]` where the value may itself hold
/// brackets: the text after the first `key:[` up to the last `]` of the
/// description, trimmed.  `None` when `key:[` does not occur or no `]` follows it.
pub fn extract_last_bracket(desc: &str, key: &str) -> (r: Option<String>)
    ensures
        opt_str_is(r, spec_last_bracket(desc@, key@)),
{
    let t = chars_of(desc);
    let g = chars_of(key);
    match extract_last_bracket_chars(t.as_slice(), g.as_slice()) {
        Some(v) => Some(string_of(v.as_slice())),
        None => None,
    }
}

/// The number of bytes of the UTF-8 encoding of `c`.
pub open spec fn utf8_width(c: char) -> nat {
    if (c as u32) <= 0x7F {
        1
    } else if (c as u32) <= 0x7FF {
        2
    } else if (c as u32) <= 0xFFFF {
        3
    } else {
        4
    }
}

/// The encoding of two sequences one after the other is the one encoding
/// followed by the other.
pub proof fn lemma_encode_append(a: Seq<char>, b: Seq<char>)
    ensures
        encode_utf8(a + b) == encode_utf8(a) + encode_utf8(b),
    decreases a.len(),
{
    if a.len() == 0 {
        assert(a + b =~= b);
        assert(encode_utf8(a) =~= Seq::<u8>::empty());
        assert(encode_utf8(a) + encode_utf8(b) =~= encode_utf8(b));
    } else {
        assert((a + b).drop_first() =~= a.drop_first() + b);
        assert((a + b)[0] == a[0]);
        lemma_encode_append(a.drop_first(), b);
        assert(encode_utf8(a + b) =~= encode_utf8(a) + encode_utf8(b));
    }
}

/// One character takes `utf8_width` bytes.
pub proof fn lemma_encode_char(c: char)
    ensures
        encode_utf8(seq![c]).len() == utf8_width(c),
{
    vstd::utf8::char_is_scalar(c);
    assert(seq![c].drop_first() =~= Seq::<char>::empty());
    assert(encode_utf8(Seq::<char>::empty()) =~= Seq::<u8>::empty());
    assert(seq![c][0] == c);
}

/// Adding a character to a text adds its width to the encoding's length.
pub proof fn lemma_encode_push(a: Seq<char>, c: char)
    ensures
        encode_utf8(a.push(c)).len() == encode_utf8(a).len() + utf8_width(c),
{
    lemma_encode_append(a, seq![c]);
    assert(a + seq![c] =~= a.push(c));
    lemma_encode_char(c);
}

fn utf8_width_exec(c: char) -> (r: usize)
    ensures
        r == utf8_width(c),
{
    let u = c as u32;
    if u <= 0x7F {
        1
    } else if u <= 0x7FF {
        2
    } else if u <= 0xFFFF {
        3
    } else {
        4
    }
}

/// Given the text that follows an opening `[`, the byte index of the `]` that
/// closes it, counting nested brackets: the length of the UTF-8 encoding of
/// the text before it.  `None` when it is never closed.
pub fn find_matching_bracket(s: &str) -> (r: Option<usize>)
    requires
        encode_utf8(s@).len() <= usize::MAX,
    ensures
        match spec_matching_bracket(s@) {
            Some(k) => r == Some(encode_utf8(s@.subrange(0, k)).len() as usize),
            None => r is None,
        },
{
    let t = chars_of(s);
    let ghost total = encode_utf8(s@).len();
    // Nesting depth; it never exceeds one more than the number of characters read.
    let mut depth: u128 = 1;
    let mut i: usize = 0;
    // Bytes of the characters before position `i`.
    let mut b: usize = 0;
    assert(s@.subrange(0, 0) =~= Seq::<char>::empty());
    assert(encode_utf8(Seq::<char>::empty()) =~= Seq::<u8>::empty());
    while i < t.len()
        invariant
            t@ == s@,
            i <= t@.len(),
            1 <= depth <= i + 1,
            total == encode_utf8(s@).len(),
            total <= usize::MAX,
            b == encode_utf8(s@.subrange(0, i as int)).len(),
            spec_matching_bracket(s@) == close_from(s@, i as int, depth as int),
        decreases t.len() - i,
    {
        let c = t[i];
        if c == '[' {
            depth = depth + 1;
        } else if c == ']' {
            depth = depth - 1;
            if depth == 0 {
                return Some(b);
            }
        }
        proof {
            let pre = s@.subrange(0, i + 1);
            assert(pre =~= s@.subrange(0, i as int).push(c));
            lemma_encode_push(s@.subrange(0, i as int), c);
            lemma_encode_append(pre, s@.subrange(i + 1, s@.len() as int));
            assert(pre + s@.subrange(i + 1, s@.len() as int) =~= s@);
        }
        let w = utf8_width_exec(c);
        b = b + w;
        i = i + 1;
    }
    None
}

/// The character position of the `]` closing an opening `[` that `s` follows;
/// [`find_matching_bracket`] gives its byte index.
pub fn matching_bracket_chars(s: &[char]) -> (r: Option<usize>)
    ensures
        match r {
            Some(k) => spec_matching_bracket(s@) == Some(k as int),
            None => spec_matching_bracket(s@) is None,
        },
        r matches Some(i) ==> i < s@.len(),
{
    // Nesting depth; it never exceeds one more than the number of characters read.
    let mut depth: u128 = 1;
    let mut i: usize = 0;
    while i < s.len()
        invariant
            i <= s@.len(),
            1 <= depth <= i + 1,
            spec_matching_bracket(s@) == close_from(s@, i as int, depth as int),
        decreases s.len() - i,
    {
        let c = s[i];
        if c == '[' {
            depth = depth + 1;
        } else if c == ']' {
            depth = depth - 1;
            if depth == 0 {
                return Some(i);
            }
        }
        i = i + 1;
    }
    None
}

/// The text after the first `prefix` (which should end with `[`) up to the `]`
/// that closes that bracket, nested brackets included; not trimmed.  `None` when
/// `prefix` does not occur or the bracket is never closed.
pub fn extract_payload(desc: &str, prefix: &str) -> (r: Option<String>)
    ensures
        opt_str_is(r, spec_payload(desc@, prefix@)),
{
    let t = chars_of(desc);
    let g = chars_of(prefix);
    match extract_payload_chars(t.as_slice(), g.as_slice()) {
        Some(v) => Some(string_of(v.as_slice())),
        None => None,
    }
}

/// [`extract_tag`] on characters.
pub fn extract_tag_chars(t: &[char], g: &[char]) -> (r: Option<Vec<char>>)
    ensures
        match spec_extract_tag(t@, g@) {
            Some(v) => r matches Some(x) && x@ == v,
            None => r is None,
        },
{
    match find_exec(t, g) {
        Some(i) => {
            assert(find(t@, g@) == Some(i as int));
            assert(i + g@.len() <= t@.len());
            let glen = g.len();
            assert(glen == g@.len() && t.len() == t@.len());
            let start = i + glen;
            let rest = slice_copy(t, start, t.len());
            assert(rest@ =~= tail(t@, i + g@.len()));
            let end = match find_char(rest.as_slice(), ']') {
                Some(e) => e,
                None => rest.len(),
            };
            assert(end as int == first_close_or_end(rest@));
            let piece = slice_copy(rest.as_slice(), 0, end);
            let trimmed = trim_exec(piece.as_slice());
            let v = strip_exec(trimmed.as_slice(), CharClass::Bracket);
            let out = v;
            assert(out@ == strip(trim(rest@.subrange(0, end as int)), CharClass::Bracket));
            Some(out)
        },
        None => None,
    }
}

/// [`extract_bracket_tag`] on characters.
pub fn extract_bracket_tag_chars(t: &[char], g: &[char]) -> (r: Option<Vec<char>>)
    ensures
        match spec_bracket_tag(t@, g@) {
            Some(v) => r matches Some(x) && x@ == v,
            None => r is None,
        },
{
    match find_exec(t, g) {
        Some(i) => {
            assert(find(t@, g@) == Some(i as int));
            assert(i + g@.len() <= t@.len());
            let glen = g.len();
            assert(glen == g@.len() && t.len() == t@.len());
            let start = i + glen;
            let after = slice_copy(t, start, t.len());
            assert(after@ =~= tail(t@, i + g@.len()));
            if after.len() > 0 && after[0] == '[' {
                match find_char(after.as_slice(), ']') {
                    Some(e) => {
                        assert(find(after@, seq![']']) == Some(e as int));
                        assert(e >= 1) by {
                            assert(occurs_at(after@, seq![']'], 0) == false) by {
                                assert(after@.subrange(0, 1)[0] == '[');
                            }
                            lemma_find_spec(after@, seq![']']);
                        }
                        let piece = slice_copy(after.as_slice(), 1, e);
                        let v = trim_exec(piece.as_slice());
                        let out = v;
                        assert(out@ == trim(after@.subrange(1, e as int)));
                        Some(out)
                    },
                    None => None,
                }
            } else {
                None
            }
        },
        None => None,
    }
}

/// [`extract_named_tag`] on characters.
pub fn extract_named_tag_chars(t: &[char], k: &[char]) -> (r: Option<Vec<char>>)
    ensures
        match spec_named_tag(t@, k@) {
            Some(v) => r matches Some(x) && x@ == v,
            None => r is None,
        },
{
    let pat = key_open_exec(k);
    match find_exec(t, pat.as_slice()) {
        Some(i) => {
            assert(find(t@, key_open(k@)) == Some(i as int));
            assert(i + pat@.len() <= t@.len());
            let plen = pat.len();
            assert(plen == pat@.len() && t.len() == t@.len());
            let start = i + plen;
            let after = slice_copy(t, start, t.len());
            assert(after@ =~= tail(t@, i + k@.len() + 2));
            match find_char(after.as_slice(), ']') {
                Some(e) => {
                    let piece = slice_copy(after.as_slice(), 0, e);
                    let v = trim_exec(piece.as_slice());
                    let out = v;
                    assert(out@ == trim(after@.subrange(0, e as int)));
                    Some(out)
                },
                None => None,
            }
        },
        None => None,
    }
}

/// [`extract_last_bracket`] on characters.
pub fn extract_last_bracket_chars(t: &[char], k: &[char]) -> (r: Option<Vec<char>>)
    ensures
        match spec_last_bracket(t@, k@) {
            Some(v) => r matches Some(x) && x@ == v,
            None => r is None,
        },
{
    let pat = key_open_exec(k);
    match find_exec(t, pat.as_slice()) {
        Some(i) => {
            assert(find(t@, key_open(k@)) == Some(i as int));
            assert(i + pat@.len() <= t@.len());
            let plen = pat.len();
            assert(plen == pat@.len() && t.len() == t@.len());
            let start = i + plen;
            let after = slice_copy(t, start, t.len());
            assert(after@ =~= tail(t@, i + k@.len() + 2));
            match rfind_char_exec(after.as_slice(), ']') {
                Some(e) => {
                    let piece = slice_copy(after.as_slice(), 0, e);
                    let v = trim_exec(piece.as_slice());
                    let out = v;
                    assert(out@ == trim(after@.subrange(0, e as int)));
                    Some(out)
                },
                None => None,
            }
        },
        None => None,
    }
}

/// [`extract_payload`] on characters.
pub fn extract_payload_chars(t: &[char], p: &[char]) -> (r: Option<Vec<char>>)
    ensures
        match spec_payload(t@, p@) {
            Some(v) => r matches Some(x) && x@ == v,
            None => r is None,
        },
{
    match find_exec(t, p) {
        Some(i) => {
            assert(find(t@, p@) == Some(i as int));
            assert(i + p@.len() <= t@.len());
            let plen = p.len();
            assert(plen == p@.len() && t.len() == t@.len());
            let start = i + plen;
            let after = slice_copy(t, start, t.len());
            assert(after@ =~= tail(t@, i + p@.len()));
            match matching_bracket_chars(after.as_slice()) {
                Some(e) => {
                    let v = slice_copy(after.as_slice(), 0, e);
                    Some(v)
                },
                None => None,
            }
        },
        None => None,
    }
}

// ───────────────────────── laws ─────────────────────────

/// `s` begins with `p`, so `find` locates `p` at position 0.
proof fn lemma_find_at_start(s: Seq<char>, p: Seq<char>)
    requires
        p.len() <= s.len(),
        s.subrange(0, p.len() as int) =~= p,
    ensures
        find(s, p) == Some(0int),
{
    crate::text::lemma_find_first(s, p, 0);
}

/// In `v + "]" + r` with no `]` in `v`, the first `]` is the one after `v`.
proof fn lemma_first_close(v: Seq<char>, r: Seq<char>)
    requires
        !v.contains(']'),
    ensures
        find(v + seq![']'] + r, seq![']']) == Some(v.len() as int),
{
    let s = v + seq![']'] + r;
    assert(s.subrange(v.len() as int, v.len() as int + 1) =~= seq![']']);
    assert forall|j: int| 0 <= j < v.len() implies !occurs_at(s, seq![']'], j) by {
        if occurs_at(s, seq![']'], j) {
            assert(s.subrange(j, j + 1)[0] == s[j]);
            assert(s[j] == v[j]);
        }
    }
    crate::text::lemma_find_first(s, seq![']'], v.len() as int);
}

/// A value written `key:[value]` is read back, trimmed, by
/// [`extract_named_tag`], whatever follows it, as long as it holds no `]`.
pub proof fn law_named_tag_roundtrip(key: Seq<char>, v: Seq<char>, rest: Seq<char>)
    requires
        !v.contains(']'),
    ensures
        spec_named_tag(key_open(key) + v + seq![']'] + rest, key) == Some(trim(v)),
{
    let d = key_open(key) + v + seq![']'] + rest;
    lemma_find_at_start(d, key_open(key));
    let after = tail(d, key.len() as int + 2);
    assert(after =~= v + seq![']'] + rest);
    lemma_first_close(v, rest);
    assert(after.subrange(0, v.len() as int) =~= v);
}

/// A value written `tag[value]` is read back, trimmed, by
/// [`extract_bracket_tag`], whatever follows it, as long as it holds no `]`.
pub proof fn law_bracket_tag_roundtrip(tag: Seq<char>, v: Seq<char>, rest: Seq<char>)
    requires
        !v.contains(']'),
    ensures
        spec_bracket_tag(tag + seq!['['] + v + seq![']'] + rest, tag) == Some(trim(v)),
{
    let d = tag + seq!['['] + v + seq![']'] + rest;
    lemma_find_at_start(d, tag);
    let after = tail(d, tag.len() as int);
    assert(after =~= seq!['['] + v + seq![']'] + rest);
    assert(!(seq!['['] + v).contains(']')) by {
        if (seq!['['] + v).contains(']') {
            let j = choose|j: int| 0 <= j < (seq!['['] + v).len() && (seq!['['] + v)[j] == ']';
            assert(v[j - 1] == ']');
        }
    }
    lemma_first_close(seq!['['] + v, rest);
    assert(after =~= (seq!['['] + v) + seq![']'] + rest);
    assert(after.subrange(1, v.len() as int + 1) =~= v);
}

/// A value written `tag value]` (or `tag value` up to a later `]`) is read
/// back by [`extract_tag`] trimmed and without surrounding brackets, as long
/// as it holds no `]`.
pub proof fn law_extract_tag_roundtrip(tag: Seq<char>, v: Seq<char>, rest: Seq<char>)
    requires
        !v.contains(']'),
    ensures
        spec_extract_tag(tag + v + seq![']'] + rest, tag) == Some(strip(trim(v), CharClass::Bracket)),
{
    let d = tag + v + seq![']'] + rest;
    lemma_find_at_start(d, tag);
    let after = tail(d, tag.len() as int);
    assert(after =~= v + seq![']'] + rest);
    lemma_first_close(v, rest);
    assert(after.subrange(0, v.len() as int) =~= v);
}

/// A message written `key:[message]` at the end of a description is read back
/// whole, trimmed, by [`extract_last_bracket`], brackets inside it included.
pub proof fn law_last_bracket_keeps_inner_brackets(key: Seq<char>, v: Seq<char>)
    ensures
        spec_last_bracket(key_open(key) + v + seq![']'], key) == Some(trim(v)),
{
    let d = key_open(key) + v + seq![']'];
    lemma_find_at_start(d, key_open(key));
    let after = tail(d, key.len() as int + 2);
    assert(after =~= v + seq![']']);
    assert(after.last() == ']');
    assert(after.subrange(0, v.len() as int) =~= v);
}

/// The bracket depth after the first `i` characters of `v`, starting from one
/// open bracket.
pub open spec fn bracket_depth(v: Seq<char>, i: int) -> int
    decreases i,
{
    if i <= 0 {
        1
    } else {
        bracket_depth(v, i - 1) + if v[i - 1] == '[' {
            1
        } else if v[i - 1] == ']' {
            -1
        } else {
            0
        }
    }
}

/// `v` closes every bracket it opens and never closes one it did not open.
pub open spec fn balanced(v: Seq<char>) -> bool {
    &&& forall|i: int| 0 <= i <= v.len() ==> #[trigger] bracket_depth(v, i) >= 1
    &&& bracket_depth(v, v.len() as int) == 1
}

proof fn lemma_close_after_balanced(v: Seq<char>, r: Seq<char>, i: int)
    requires
        balanced(v),
        0 <= i <= v.len(),
    ensures
        close_from(v + seq![']'] + r, i, bracket_depth(v, i)) == Some(v.len() as int),
    decreases v.len() - i,
{
    let s = v + seq![']'] + r;
    if i < v.len() {
        assert(s[i] == v[i]);
        assert(bracket_depth(v, i + 1) >= 1);
        lemma_close_after_balanced(v, r, i + 1);
    } else {
        assert(s[i] == ']');
    }
}

/// A payload written `prefix value]` is read back exactly by
/// [`extract_payload`] when `value` is balanced: brackets nested in it do not
/// end it early.
pub proof fn law_payload_keeps_nested_brackets(prefix: Seq<char>, v: Seq<char>, rest: Seq<char>)
    requires
        balanced(v),
    ensures
        spec_payload(prefix + v + seq![']'] + rest, prefix) == Some(v),
{
    let d = prefix + v + seq![']'] + rest;
    lemma_find_at_start(d, prefix);
    let after = tail(d, prefix.len() as int);
    assert(after =~= v + seq![']'] + rest);
    lemma_close_after_balanced(v, rest, 0);
    assert(after.subrange(0, v.len() as int) =~= v);
}

} // verus!
