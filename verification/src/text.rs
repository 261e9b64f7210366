//! Character-level text model shared by every parser of the library.
//!
//! Strings are modelled by their views, `Seq<char>`.  Positions are character
//! positions: a byte offset returned by `str::find` and the character position
//! used here name the same character, so every result below is the one the
//! byte-oriented formulation gives.
use vstd::prelude::*;

verus! {

// ───────────────────────── character classes ─────────────────────────

/// The Unicode `White_Space` property, which is what `char::is_whitespace` tests.
pub open spec fn is_white(c: char) -> bool {
    ||| ('\u{9}' <= c && c <= '\u{d}')
    ||| c == ' '
    ||| c == '\u{85}'
    ||| c == '\u{a0}'
    ||| c == '\u{1680}'
    ||| ('\u{2000}' <= c && c <= '\u{200a}')
    ||| c == '\u{2028}'
    ||| c == '\u{2029}'
    ||| c == '\u{202f}'
    ||| c == '\u{205f}'
    ||| c == '\u{3000}'
}

pub fn is_white_exec(c: char) -> (b: bool)
    ensures
        b == is_white(c),
{
    ('\u{9}' <= c && c <= '\u{d}') || c == ' ' || c == '\u{85}' || c == '\u{a0}' || c
        == '\u{1680}' || ('\u{2000}' <= c && c <= '\u{200a}') || c == '\u{2028}' || c
        == '\u{2029}' || c == '\u{202f}' || c == '\u{205f}' || c == '\u{3000}'
}

/// The sets of characters that the parsers strip from the ends of a value.
#[derive(Clone, Copy, PartialEq, Eq, Debug)]
pub enum CharClass {
    /// Unicode white space.
    White,
    /// `[` or `]`.
    Bracket,
    /// `/`.
    Slash,
    /// The characters `(`, `)`, `'`, `"`, `` ` `` and `,` that surround a path in prose.
    Quote,
    /// `` ` ``.
    Backtick,
    /// `[`.
    Open,
    /// `]`.
    Close,
    /// The characters `'`, `"`, `` ` ``, `(`, `)` and `]` that wrap a link in prose.
    LinkWrap,
}

pub open spec fn in_class(cls: CharClass, c: char) -> bool {
    match cls {
        CharClass::White => is_white(c),
        CharClass::Bracket => c == '[' || c == ']',
        CharClass::Slash => c == '/',
        CharClass::Quote => c == '(' || c == ')' || c == '\'' || c == '"' || c == '`' || c == ',',
        CharClass::Backtick => c == '`',
        CharClass::Open => c == '[',
        CharClass::Close => c == ']',
        CharClass::LinkWrap => c == '\'' || c == '"' || c == '`' || c == '(' || c == ')' || c == ']',
    }
}

pub fn in_class_exec(cls: CharClass, c: char) -> (b: bool)
    ensures
        b == in_class(cls, c),
{
    match cls {
        CharClass::White => is_white_exec(c),
        CharClass::Bracket => c == '[' || c == ']',
        CharClass::Slash => c == '/',
        CharClass::Quote => c == '(' || c == ')' || c == '\'' || c == '"' || c == '`' || c
            == ',',
        CharClass::Backtick => c == '`',
        CharClass::Open => c == '[',
        CharClass::Close => c == ']',
        CharClass::LinkWrap => c == '\'' || c == '"' || c == '`' || c == '(' || c == ')' || c == ']',
    }
}

// ───────────────────────── searching ─────────────────────────

/// `p` occurs in `s` starting at position `i`.
pub open spec fn occurs_at(s: Seq<char>, p: Seq<char>, i: int) -> bool {
    0 <= i && i + p.len() <= s.len() && s.subrange(i, i + p.len()) =~= p
}

/// The first position at or after `i` at which `p` occurs in `s`.
pub open spec fn find_from(s: Seq<char>, p: Seq<char>, i: int) -> Option<int>
    decreases s.len() - i,
{
    if i + p.len() > s.len() {
        None
    } else if occurs_at(s, p, i) {
        Some(i)
    } else {
        find_from(s, p, i + 1)
    }
}

/// The first position at which `p` occurs in `s` (what `str::find` returns).
pub open spec fn find(s: Seq<char>, p: Seq<char>) -> Option<int> {
    find_from(s, p, 0)
}

/// The last position of `c` in `s` (what `str::rfind` with a `char` returns).
pub open spec fn rfind_char(s: Seq<char>, c: char) -> Option<int>
    decreases s.len(),
{
    if s.len() == 0 {
        None
    } else if s.last() == c {
        Some(s.len() - 1)
    } else {
        rfind_char(s.drop_last(), c)
    }
}

/// `s` contains `p` (what `str::contains` tests).
pub open spec fn contains(s: Seq<char>, p: Seq<char>) -> bool {
    find(s, p) is Some
}

/// `s` starts with `p`.
pub open spec fn starts_with(s: Seq<char>, p: Seq<char>) -> bool {
    p.len() <= s.len() && s.subrange(0, p.len() as int) =~= p
}

/// `s` ends with `p`.
pub open spec fn ends_with(s: Seq<char>, p: Seq<char>) -> bool {
    p.len() <= s.len() && s.subrange(s.len() - p.len(), s.len() as int) =~= p
}

/// The part of `s` from position `i` on.
pub open spec fn tail(s: Seq<char>, i: int) -> Seq<char> {
    s.subrange(i, s.len() as int)
}

// ───────────────────────── trimming ─────────────────────────

/// `s` without its leading characters of class `cls`.
pub open spec fn strip_start(s: Seq<char>, cls: CharClass) -> Seq<char>
    decreases s.len(),
{
    if s.len() > 0 && in_class(cls, s[0]) {
        strip_start(s.drop_first(), cls)
    } else {
        s
    }
}

/// `s` without its trailing characters of class `cls`.
pub open spec fn strip_end(s: Seq<char>, cls: CharClass) -> Seq<char>
    decreases s.len(),
{
    if s.len() > 0 && in_class(cls, s.last()) {
        strip_end(s.drop_last(), cls)
    } else {
        s
    }
}

/// `s` without leading and trailing characters of class `cls`
/// (what `str::trim_matches` gives for that class).
pub open spec fn strip(s: Seq<char>, cls: CharClass) -> Seq<char> {
    strip_end(strip_start(s, cls), cls)
}

/// `s` without leading and trailing white space (what `str::trim` gives).
pub open spec fn trim(s: Seq<char>) -> Seq<char> {
    strip(s, CharClass::White)
}

/// `s` with every leading copy of `p` removed (what `str::trim_start_matches` gives
/// for a non-empty string pattern).
pub open spec fn strip_prefix_rep(s: Seq<char>, p: Seq<char>) -> Seq<char>
    decreases s.len(),
{
    if p.len() > 0 && starts_with(s, p) {
        strip_prefix_rep(s.subrange(p.len() as int, s.len() as int), p)
    } else {
        s
    }
}

/// `s` with every trailing copy of `p` removed (what `str::trim_end_matches` gives
/// for a non-empty string pattern).
pub open spec fn strip_suffix_rep(s: Seq<char>, p: Seq<char>) -> Seq<char>
    decreases s.len(),
{
    if p.len() > 0 && ends_with(s, p) {
        strip_suffix_rep(s.subrange(0, s.len() - p.len()), p)
    } else {
        s
    }
}

// ───────────────────────── exec: conversions ─────────────────────────

/// The characters of `s`, in order.
pub fn chars_of(s: &str) -> (v: Vec<char>)
    ensures
        v@ == s@,
{
    let n = s.unicode_len();
    let mut v: Vec<char> = Vec::new();
    let mut i: usize = 0;
    while i < n
        invariant
            n == s@.len(),
            i <= n,
            v@ =~= s@.subrange(0, i as int),
        decreases n - i,
    {
        let c = s.get_char(i);
        v.push(c);
        i = i + 1;
    }
    v
}

/// `std::string::String::from_iter` over the characters of `v`: the string whose
/// characters are exactly `v`, in order.
#[verifier::external_body]
pub(crate) fn string_of(v: &[char]) -> (s: String)
    ensures
        s@ == v@,
{
    v.iter().collect::<String>()
}

/// The string whose characters are `s@`, owned.
pub fn owned(s: &str) -> (r: String)
    ensures
        r@ == s@,
{
    s.to_owned()
}

/// A copy of `s[a..b]`.
pub fn slice_copy(s: &[char], a: usize, b: usize) -> (r: Vec<char>)
    requires
        a <= b <= s@.len(),
    ensures
        r@ =~= s@.subrange(a as int, b as int),
{
    let mut r: Vec<char> = Vec::new();
    let mut i: usize = a;
    while i < b
        invariant
            a <= i <= b <= s@.len(),
            r@ =~= s@.subrange(a as int, i as int),
        decreases b - i,
    {
        r.push(s[i]);
        i = i + 1;
    }
    r
}

/// `a` followed by `b`.
pub fn concat(a: &[char], b: &[char]) -> (r: Vec<char>)
    ensures
        r@ =~= a@ + b@,
{
    let mut r = slice_copy(a, 0, a.len());
    let mut i: usize = 0;
    while i < b.len()
        invariant
            i <= b@.len(),
            r@ =~= a@ + b@.subrange(0, i as int),
        decreases b.len() - i,
    {
        r.push(b[i]);
        i = i + 1;
    }
    r
}

/// Appends the characters of `b` to `v`.
pub fn append_chars(v: &mut Vec<char>, b: &[char])
    ensures
        final(v)@ =~= old(v)@ + b@,
{
    let mut i: usize = 0;
    while i < b.len()
        invariant
            i <= b@.len(),
            v@ =~= old(v)@ + b@.subrange(0, i as int),
        decreases b.len() - i,
    {
        v.push(b[i]);
        i = i + 1;
    }
}

/// Appends the characters of `s` to `v`.
pub fn append_str(v: &mut Vec<char>, s: &str)
    ensures
        final(v)@ =~= old(v)@ + s@,
{
    let c = chars_of(s);
    append_chars(v, c.as_slice());
}

/// Whether `a` and `b` hold the same characters.
pub fn eq_chars(a: &[char], b: &[char]) -> (r: bool)
    ensures
        r == (a@ == b@),
{
    if a.len() != b.len() {
        assert(a@.len() != b@.len());
        return false;
    }
    let mut i: usize = 0;
    while i < a.len()
        invariant
            a@.len() == b@.len(),
            i <= a@.len(),
            forall|j: int| 0 <= j < i ==> a@[j] == b@[j],
        decreases a.len() - i,
    {
        if a[i] != b[i] {
            return false;
        }
        i = i + 1;
    }
    assert(a@ =~= b@);
    true
}

/// Whether the string slice `a` equals the literal-like slice `b`.
pub fn str_eq(a: &str, b: &str) -> (r: bool)
    ensures
        r == (a@ == b@),
{
    let x = chars_of(a);
    let y = chars_of(b);
    eq_chars(x.as_slice(), y.as_slice())
}

// ───────────────────────── exec: searching ─────────────────────────

/// Whether `p` occurs in `s` at position `i`.
pub fn occurs_at_exec(s: &[char], p: &[char], i: usize) -> (r: bool)
    ensures
        r == occurs_at(s@, p@, i as int),
{
    if i > s.len() || p.len() > s.len() - i {
        return false;
    }
    let mut k: usize = 0;
    while k < p.len()
        invariant
            i + p@.len() <= s@.len(),
            s@.len() == s.len(),
            k <= p@.len(),
            forall|j: int| 0 <= j < k ==> s@[i + j] == p@[j],
        decreases p.len() - k,
    {
        if s[i + k] != p[k] {
            assert(s@.subrange(i as int, i + p@.len())[k as int] != p@[k as int]);
            return false;
        }
        k = k + 1;
    }
    assert(s@.subrange(i as int, i + p@.len()) =~= p@);
    true
}

/// The first position of `p` in `s`.
pub fn find_exec(s: &[char], p: &[char]) -> (r: Option<usize>)
    ensures
        match r {
            Some(k) => find(s@, p@) == Some(k as int),
            None => find(s@, p@) is None,
        },
        r matches Some(i) ==> i + p@.len() <= s@.len(),
{
    proof {
        lemma_find_spec(s@, p@);
    }
    let mut i: usize = 0;
    while i <= s.len() && p.len() <= s.len() - i
        invariant
            find(s@, p@) == find_from(s@, p@, i as int),
            i <= s@.len() + 1,
        decreases s.len() + 1 - i,
    {
        if occurs_at_exec(s, p, i) {
            return Some(i);
        }
        i = i + 1;
    }
    None
}

/// The first position at or after `from` of `p` in `s`, as a position of `s`.
pub proof fn lemma_find_shift(s: Seq<char>, p: Seq<char>, i: int, from: int)
    requires
        0 <= from <= i,
        from <= s.len(),
    ensures
        find_from(tail(s, from), p, i - from) == match find_from(s, p, i) {
            Some(k) => Some(k - from),
            None => None::<int>,
        },
    decreases s.len() - i,
{
    let t = tail(s, from);
    if i + p.len() > s.len() {
    } else {
        assert(occurs_at(t, p, i - from) == occurs_at(s, p, i)) by {
            if 0 <= i - from && i - from + p.len() <= t.len() {
                assert(t.subrange(i - from, i - from + p.len()) =~= s.subrange(i, i + p.len()));
            }
        }
        if !occurs_at(s, p, i) {
            lemma_find_shift(s, p, i + 1, from);
        }
    }
}

/// A found occurrence is an occurrence, and none comes before it.
pub proof fn lemma_find_from_spec(s: Seq<char>, p: Seq<char>, i: int)
    requires
        0 <= i,
    ensures
        match find_from(s, p, i) {
            Some(k) => i <= k && occurs_at(s, p, k) && forall|j: int|
                i <= j < k ==> !occurs_at(s, p, j),
            None => forall|j: int| i <= j ==> !occurs_at(s, p, j),
        },
    decreases s.len() - i,
{
    if i + p.len() > s.len() {
    } else if occurs_at(s, p, i) {
    } else {
        lemma_find_from_spec(s, p, i + 1);
    }
}

/// `find` returns the first occurrence.
pub proof fn lemma_find_spec(s: Seq<char>, p: Seq<char>)
    ensures
        match find(s, p) {
            Some(k) => 0 <= k && k + p.len() <= s.len() && occurs_at(s, p, k) && forall|j: int|
                0 <= j < k ==> !occurs_at(s, p, j),
            None => forall|j: int| !occurs_at(s, p, j),
        },
{
    lemma_find_from_spec(s, p, 0);
}

/// If `p` occurs at `k` and nowhere before, `find` returns `k`.
pub proof fn lemma_find_first(s: Seq<char>, p: Seq<char>, k: int)
    requires
        occurs_at(s, p, k),
        forall|j: int| 0 <= j < k ==> !occurs_at(s, p, j),
    ensures
        find(s, p) == Some(k),
{
    lemma_find_spec(s, p);
    match find(s, p) {
        Some(f) => {
            if f < k {
            } else if f > k {
            }
        },
        None => {
            assert(!occurs_at(s, p, k));
        },
    }
}

/// The first position of `c` in `s`.
pub fn find_char(s: &[char], c: char) -> (r: Option<usize>)
    ensures
        match r {
            Some(k) => find(s@, seq![c]) == Some(k as int),
            None => find(s@, seq![c]) is None,
        },
        r matches Some(i) ==> i < s@.len(),
{
    let p = vec![c];
    assert(p@ =~= seq![c]);
    find_exec(s, p.as_slice())
}

/// The last position of `c` in `s`.
pub fn rfind_char_exec(s: &[char], c: char) -> (r: Option<usize>)
    ensures
        match r {
            Some(k) => rfind_char(s@, c) == Some(k as int),
            None => rfind_char(s@, c) is None,
        },
        r matches Some(i) ==> i < s@.len(),
{
    let mut n: usize = s.len();
    assert(s@.subrange(0, s@.len() as int) =~= s@);
    while n > 0
        invariant
            n <= s@.len(),
            rfind_char(s@, c) == rfind_char(s@.subrange(0, n as int), c),
        decreases n,
    {
        let ghost t = s@.subrange(0, n as int);
        if s[n - 1] == c {
            return Some(n - 1);
        }
        assert(t.drop_last() =~= s@.subrange(0, n - 1));
        n = n - 1;
    }
    None
}

/// Whether `s` contains `p`.
pub fn contains_exec(s: &[char], p: &[char]) -> (r: bool)
    ensures
        r == contains(s@, p@),
{
    find_exec(s, p).is_some()
}

/// Whether `s` starts with `p`.
pub fn starts_with_exec(s: &[char], p: &[char]) -> (r: bool)
    ensures
        r == starts_with(s@, p@),
{
    occurs_at_exec(s, p, 0)
}

/// Whether `s` ends with `p`.
pub fn ends_with_exec(s: &[char], p: &[char]) -> (r: bool)
    ensures
        r == ends_with(s@, p@),
{
    if p.len() > s.len() {
        return false;
    }
    occurs_at_exec(s, p, s.len() - p.len())
}

// ───────────────────────── exec: trimming ─────────────────────────

/// Bounds `(a, b)` such that `s[a..b]` is `s` without its leading and trailing
/// characters of class `cls`.
pub fn strip_bounds(s: &[char], cls: CharClass) -> (r: (usize, usize))
    ensures
        r.0 <= r.1 <= s@.len(),
        s@.subrange(r.0 as int, r.1 as int) =~= strip(s@, cls),
        strip_start(s@, cls) =~= s@.subrange(r.0 as int, s@.len() as int),
{
    let mut a: usize = 0;
    assert(s@.subrange(0, s@.len() as int) =~= s@);
    while a < s.len() && in_class_exec(cls, s[a])
        invariant
            a <= s@.len(),
            strip_start(s@, cls) == strip_start(s@.subrange(a as int, s@.len() as int), cls),
        decreases s.len() - a,
    {
        assert(s@.subrange(a as int, s@.len() as int).drop_first() =~= s@.subrange(
            a + 1,
            s@.len() as int,
        ));
        a = a + 1;
    }
    assert(strip_start(s@.subrange(a as int, s@.len() as int), cls) == s@.subrange(
        a as int,
        s@.len() as int,
    ));
    let ghost st = s@.subrange(a as int, s@.len() as int);
    let mut b: usize = s.len();
    while b > a && in_class_exec(cls, s[b - 1])
        invariant
            a <= b <= s@.len(),
            st == s@.subrange(a as int, s@.len() as int),
            strip_end(st, cls) == strip_end(s@.subrange(a as int, b as int), cls),
        decreases b,
    {
        assert(s@.subrange(a as int, b as int).drop_last() =~= s@.subrange(a as int, b - 1));
        b = b - 1;
    }
    (a, b)
}

/// `s` without leading and trailing characters of class `cls`.
pub fn strip_exec(s: &[char], cls: CharClass) -> (r: Vec<char>)
    ensures
        r@ == strip(s@, cls),
{
    let (a, b) = strip_bounds(s, cls);
    slice_copy(s, a, b)
}

/// `s` without leading characters of class `cls`.
pub fn strip_start_exec(s: &[char], cls: CharClass) -> (r: Vec<char>)
    ensures
        r@ == strip_start(s@, cls),
{
    let (a, _b) = strip_bounds(s, cls);
    slice_copy(s, a, s.len())
}

/// `s` without trailing characters of class `cls`.
pub fn strip_end_exec(s: &[char], cls: CharClass) -> (r: Vec<char>)
    ensures
        r@ == strip_end(s@, cls),
{
    let mut b: usize = s.len();
    assert(s@.subrange(0, s@.len() as int) =~= s@);
    while b > 0 && in_class_exec(cls, s[b - 1])
        invariant
            b <= s@.len(),
            strip_end(s@, cls) == strip_end(s@.subrange(0, b as int), cls),
        decreases b,
    {
        assert(s@.subrange(0, b as int).drop_last() =~= s@.subrange(0, b - 1));
        b = b - 1;
    }
    slice_copy(s, 0, b)
}

/// `s` without leading and trailing white space.
pub fn trim_exec(s: &[char]) -> (r: Vec<char>)
    ensures
        r@ == trim(s@),
{
    strip_exec(s, CharClass::White)
}

/// `s` with every leading copy of the non-empty pattern `p` removed.
pub fn strip_prefix_rep_exec(s: &[char], p: &[char]) -> (r: Vec<char>)
    ensures
        r@ == strip_prefix_rep(s@, p@),
{
    if p.len() == 0 {
        return slice_copy(s, 0, s.len());
    }
    let mut a: usize = 0;
    assert(tail(s@, 0) =~= s@);
    while a <= s.len() && p.len() <= s.len() - a && occurs_at_exec(s, p, a)
        invariant
            p@.len() > 0,
            a <= s@.len(),
            strip_prefix_rep(s@, p@) == strip_prefix_rep(tail(s@, a as int), p@),
        decreases s.len() - a,
    {
        let ghost t = tail(s@, a as int);
        assert(t.subrange(0, p@.len() as int) =~= s@.subrange(a as int, a + p@.len()));
        assert(t.subrange(p@.len() as int, t.len() as int) =~= tail(s@, a + p@.len()));
        a = a + p.len();
    }
    let ghost t = tail(s@, a as int);
    assert(!starts_with(t, p@)) by {
        if starts_with(t, p@) {
            assert(t.subrange(0, p@.len() as int) =~= s@.subrange(a as int, a + p@.len()));
        }
    }
    slice_copy(s, a, s.len())
}

/// `s` with every trailing copy of the non-empty pattern `p` removed.
pub fn strip_suffix_rep_exec(s: &[char], p: &[char]) -> (r: Vec<char>)
    ensures
        r@ == strip_suffix_rep(s@, p@),
{
    if p.len() == 0 {
        return slice_copy(s, 0, s.len());
    }
    let mut b: usize = s.len();
    assert(s@.subrange(0, s@.len() as int) =~= s@);
    while p.len() <= b && occurs_at_exec(s, p, b - p.len())
        invariant
            p@.len() > 0,
            b <= s@.len(),
            strip_suffix_rep(s@, p@) == strip_suffix_rep(s@.subrange(0, b as int), p@),
        decreases b,
    {
        let ghost t = s@.subrange(0, b as int);
        assert(t.subrange(t.len() - p@.len(), t.len() as int) =~= s@.subrange(
            b - p@.len(),
            b as int,
        ));
        assert(t.subrange(0, t.len() - p@.len()) =~= s@.subrange(0, b - p@.len()));
        b = b - p.len();
    }
    let ghost t = s@.subrange(0, b as int);
    assert(!ends_with(t, p@)) by {
        if ends_with(t, p@) {
            assert(t.subrange(t.len() - p@.len(), t.len() as int) =~= s@.subrange(
                b - p@.len(),
                b as int,
            ));
        }
    }
    slice_copy(s, 0, b)
}

} // verus!

verus! {

// ───────────────────────── numbers ─────────────────────────

/// `c` is an ASCII decimal digit.
pub open spec fn is_digit(c: char) -> bool {
    '0' <= c && c <= '9'
}

/// Every character of `s` is a decimal digit.
pub open spec fn all_digits(s: Seq<char>) -> bool {
    forall|i: int| 0 <= i < s.len() ==> is_digit(#[trigger] s[i])
}

/// The value of the decimal digits `s`.
pub open spec fn digits_value(s: Seq<char>) -> nat
    decreases s.len(),
{
    if s.len() == 0 {
        0
    } else {
        digits_value(s.drop_last()) * 10 + ((s.last() as u32) - ('0' as u32)) as nat
    }
}

/// The magnitude text of a number after an optional sign has been removed:
/// `Some(value)` when it is a non-empty run of digits.
pub open spec fn magnitude(body: Seq<char>) -> Option<nat> {
    if body.len() > 0 && all_digits(body) {
        Some(digits_value(body))
    } else {
        None
    }
}

/// What `str::parse` gives for an unsigned type whose largest value is `max`:
/// an optional `+`, then at least one digit and nothing else, with a value of at
/// most `max`.
pub open spec fn spec_parse_unsigned(s: Seq<char>, max: nat) -> Option<nat> {
    let body = if s.len() > 0 && s[0] == '+' { s.drop_first() } else { s };
    match magnitude(body) {
        Some(v) => if v <= max { Some(v) } else { None },
        None => None,
    }
}

/// What `str::parse` gives for a signed type with range `min..=max`: an optional
/// `+` or `-`, then at least one digit and nothing else, within the range.
pub open spec fn spec_parse_signed(s: Seq<char>, min: int, max: int) -> Option<int> {
    if s.len() > 0 && s[0] == '-' {
        match magnitude(s.drop_first()) {
            Some(v) => if -v >= min { Some(-v) } else { None },
            None => None,
        }
    } else {
        let body = if s.len() > 0 && s[0] == '+' { s.drop_first() } else { s };
        match magnitude(body) {
            Some(v) => if v <= max { Some(v as int) } else { None },
            None => None,
        }
    }
}

/// A longer run of digits is worth at least as much as its prefix.
pub proof fn lemma_digits_prefix(s: Seq<char>, k: int)
    requires
        0 <= k <= s.len(),
        all_digits(s),
    ensures
        digits_value(s.subrange(0, k)) <= digits_value(s),
    decreases s.len() - k,
{
    if k < s.len() {
        lemma_digits_prefix(s, k + 1);
        let p = s.subrange(0, k + 1);
        assert(p.drop_last() =~= s.subrange(0, k));
        assert(is_digit(s[k]));
    } else {
        assert(s.subrange(0, k) =~= s);
    }
}

/// The value of the digits of `s[from..]`, if they are a non-empty run of
/// digits worth at most `max`.
fn digits_at_most(s: &[char], from: usize, max: u64) -> (r: Option<u64>)
    requires
        from <= s@.len(),
    ensures
        ({
            let body = s@.subrange(from as int, s@.len() as int);
            match r {
                Some(v) => magnitude(body) == Some(v as nat) && v <= max,
                None => magnitude(body) is None || magnitude(body)->0 > max,
            }
        }),
{
    let ghost body = s@.subrange(from as int, s@.len() as int);
    if from >= s.len() {
        return None;
    }
    let mut acc: u64 = 0;
    let mut i: usize = from;
    while i < s.len()
        invariant
            from <= i <= s@.len(),
            body == s@.subrange(from as int, s@.len() as int),
            all_digits(s@.subrange(from as int, i as int)),
            acc as nat == digits_value(s@.subrange(from as int, i as int)),
            acc <= max,
        decreases s.len() - i,
    {
        let c = s[i];
        let ghost pre = s@.subrange(from as int, i as int);
        let ghost next = s@.subrange(from as int, i + 1);
        assert(next.drop_last() =~= pre);
        if !('0' <= c && c <= '9') {
            assert(!all_digits(body)) by {
                assert(body[i - from] == c);
            }
            return None;
        }
        let d = (c as u32 - '0' as u32) as u64;
        assert(digits_value(next) == digits_value(pre) * 10 + d);
        if d > max || acc > (max - d) / 10 {
            proof {
                if d <= max {
                    assert(acc * 10 + d > max) by (nonlinear_arith)
                        requires
                            acc > (max - d) / 10,
                            d <= max,
                    {
                    }
                }
                if all_digits(body) {
                    lemma_digits_prefix(body, i + 1 - from);
                    assert(body.subrange(0, i + 1 - from) =~= next);
                }
            }
            return None;
        }
        assert(acc * 10 + d <= max) by (nonlinear_arith)
            requires
                acc <= (max - d) / 10,
                d <= max,
        {
        }
        acc = acc * 10 + d;
        i = i + 1;
    }
    assert(s@.subrange(from as int, i as int) =~= body);
    Some(acc)
}

/// `str::parse` of an unsigned integer with largest value `max`.
pub fn parse_unsigned(s: &[char], max: u64) -> (r: Option<u64>)
    ensures
        match spec_parse_unsigned(s@, max as nat) {
            Some(v) => r == Some(v as u64),
            None => r is None,
        },
{
    let from: usize = if s.len() > 0 && s[0] == '+' { 1 } else { 0 };
    let ghost body = if s@.len() > 0 && s@[0] == '+' { s@.drop_first() } else { s@ };
    assert(s@.subrange(from as int, s@.len() as int) =~= body);
    digits_at_most(s, from, max)
}

/// `str::parse` of a signed integer in `min..=max` (`min <= 0 <= max`).
pub fn parse_signed(s: &[char], min: i64, max: i64) -> (r: Option<i64>)
    requires
        min <= 0 <= max,
    ensures
        match spec_parse_signed(s@, min as int, max as int) {
            Some(v) => r == Some(v as i64),
            None => r is None,
        },
{
    if s.len() > 0 && s[0] == '-' {
        assert(s@.subrange(1, s@.len() as int) =~= s@.drop_first());
        let lim: u64 = if min == i64::MIN { 0x8000_0000_0000_0000 } else { (-min) as u64 };
        match digits_at_most(s, 1, lim) {
            Some(v) => {
                if v == 0x8000_0000_0000_0000 {
                    Some(i64::MIN)
                } else {
                    Some(-(v as i64))
                }
            },
            None => None,
        }
    } else {
        let from: usize = if s.len() > 0 && s[0] == '+' { 1 } else { 0 };
        let ghost body = if s@.len() > 0 && s@[0] == '+' { s@.drop_first() } else { s@ };
        assert(s@.subrange(from as int, s@.len() as int) =~= body);
        match digits_at_most(s, from, max as u64) {
            Some(v) => Some(v as i64),
            None => None,
        }
    }
}

/// `str::parse::<i32>`.
pub fn parse_i32(s: &[char]) -> (r: Option<i32>)
    ensures
        match spec_parse_signed(s@, i32::MIN as int, i32::MAX as int) {
            Some(v) => r == Some(v as i32),
            None => r is None,
        },
{
    match parse_signed(s, i32::MIN as i64, i32::MAX as i64) {
        Some(v) => Some(v as i32),
        None => None,
    }
}

/// `str::parse::<i64>`.
pub fn parse_i64(s: &[char]) -> (r: Option<i64>)
    ensures
        match spec_parse_signed(s@, i64::MIN as int, i64::MAX as int) {
            Some(v) => r == Some(v as i64),
            None => r is None,
        },
{
    parse_signed(s, i64::MIN, i64::MAX)
}

/// `str::parse::<u64>`.
pub fn parse_u64(s: &[char]) -> (r: Option<u64>)
    ensures
        match spec_parse_unsigned(s@, u64::MAX as nat) {
            Some(v) => r == Some(v as u64),
            None => r is None,
        },
{
    parse_unsigned(s, u64::MAX)
}

/// `str::parse::<u32>`.
pub fn parse_u32(s: &[char]) -> (r: Option<u32>)
    ensures
        match spec_parse_unsigned(s@, u32::MAX as nat) {
            Some(v) => r == Some(v as u32),
            None => r is None,
        },
{
    match parse_unsigned(s, u32::MAX as u64) {
        Some(v) => Some(v as u32),
        None => None,
    }
}

/// `str::parse::<usize>`.
pub fn parse_usize(s: &[char]) -> (r: Option<usize>)
    ensures
        match spec_parse_unsigned(s@, usize::MAX as nat) {
            Some(v) => r == Some(v as usize),
            None => r is None,
        },
{
    match parse_unsigned(s, usize::MAX as u64) {
        Some(v) => Some(v as usize),
        None => None,
    }
}

} // verus!

verus! {

// ───────────────────────── words ─────────────────────────

/// The position of the first character of class `cls` in `s` at or after `i`,
/// or the length of `s`.
pub open spec fn next_in_class(s: Seq<char>, cls: CharClass, i: int) -> int
    decreases s.len() - i,
{
    if i < 0 || i >= s.len() {
        s.len() as int
    } else if in_class(cls, s[i]) {
        i
    } else {
        next_in_class(s, cls, i + 1)
    }
}

/// The white-space separated words of `s`, in order (what `str::split_whitespace`
/// yields).
pub open spec fn words(s: Seq<char>) -> Seq<Seq<char>>
    decreases s.len(),
{
    let t = strip_start(s, CharClass::White);
    if t.len() == 0 {
        Seq::empty()
    } else {
        let e = next_in_class(t, CharClass::White, 0);
        if 0 < e <= t.len() && t.len() <= s.len() {
            seq![t.subrange(0, e)] + words(t.subrange(e, t.len() as int))
        } else {
            Seq::empty()
        }
    }
}

/// The first word of `s`, if any.
pub open spec fn first_word(s: Seq<char>) -> Option<Seq<char>> {
    if words(s).len() > 0 {
        Some(words(s)[0])
    } else {
        None
    }
}

proof fn lemma_next_in_class(s: Seq<char>, cls: CharClass, i: int)
    requires
        0 <= i <= s.len(),
    ensures
        i <= next_in_class(s, cls, i) <= s.len(),
        forall|j: int| i <= j < next_in_class(s, cls, i) ==> !in_class(cls, #[trigger] s[j]),
        next_in_class(s, cls, i) < s.len() ==> in_class(cls, s[next_in_class(s, cls, i)]),
    decreases s.len() - i,
{
    if i < s.len() && !in_class(cls, s[i]) {
        lemma_next_in_class(s, cls, i + 1);
    }
}

pub proof fn lemma_strip_start_len(s: Seq<char>, cls: CharClass)
    ensures
        strip_start(s, cls).len() <= s.len(),
        strip_start(s, cls).len() > 0 ==> !in_class(cls, strip_start(s, cls)[0]),
    decreases s.len(),
{
    if s.len() > 0 && in_class(cls, s[0]) {
        lemma_strip_start_len(s.drop_first(), cls);
    }
}

/// The end of the word that starts at `i` in `s`.
fn word_end(s: &[char], i: usize) -> (e: usize)
    requires
        i <= s@.len(),
    ensures
        e == next_in_class(s@, CharClass::White, i as int),
        i <= e <= s@.len(),
{
    proof {
        lemma_next_in_class(s@, CharClass::White, i as int);
    }
    let mut e = i;
    while e < s.len() && !is_white_exec(s[e])
        invariant
            i <= e <= s@.len(),
            next_in_class(s@, CharClass::White, i as int) == next_in_class(
                s@,
                CharClass::White,
                e as int,
            ),
        decreases s.len() - e,
    {
        e = e + 1;
    }
    e
}

/// The words of `s`.
pub fn words_of(s: &[char]) -> (r: Vec<Vec<char>>)
    ensures
        r@.len() == words(s@).len(),
        forall|k: int| 0 <= k < r@.len() ==> #[trigger] r@[k]@ == words(s@)[k],
{
    let mut out: Vec<Vec<char>> = Vec::new();
    let mut rest = slice_copy(s, 0, s.len());
    let ghost done: Seq<Seq<char>> = Seq::empty();
    assert(rest@ =~= s@);
    loop
        invariant
            out@.len() == done.len(),
            forall|k: int| 0 <= k < out@.len() ==> #[trigger] out@[k]@ == done[k],
            words(s@) == done + words(rest@),
        decreases rest@.len(),
    {
        let t = strip_start_exec(rest.as_slice(), CharClass::White);
        proof {
            lemma_strip_start_len(rest@, CharClass::White);
        }
        if t.len() == 0 {
            assert(words(rest@) =~= Seq::<Seq<char>>::empty());
            assert(done + words(rest@) =~= done);
            return out;
        }
        let e = word_end(t.as_slice(), 0);
        proof {
            lemma_next_in_class(t@, CharClass::White, 0);
        }
        assert(e > 0) by {
            assert(!in_class(CharClass::White, t@[0]));
        }
        let w = slice_copy(t.as_slice(), 0, e);
        let next = slice_copy(t.as_slice(), e, t.len());
        proof {
            assert(words(rest@) == seq![w@] + words(next@));
            assert(done + words(rest@) =~= done.push(w@) + words(next@));
            done = done.push(w@);
        }
        out.push(w);
        rest = next;
    }
}

/// The first word of `s`.
pub fn first_word_of(s: &[char]) -> (r: Option<Vec<char>>)
    ensures
        match first_word(s@) {
            Some(w) => r matches Some(x) && x@ == w,
            None => r is None,
        },
{
    let mut ws = words_of(s);
    if ws.len() == 0 {
        None
    } else {
        let w = ws.swap_remove(0);
        Some(w)
    }
}

} // verus!

verus! {

// ───────────────────────── splitting ─────────────────────────

/// The parts of `s` between occurrences of `c` (what `str::split` with a `char`
/// yields; there is always at least one part).
pub open spec fn split_char(s: Seq<char>, c: char) -> Seq<Seq<char>>
    decreases s.len(),
{
    match find(s, seq![c]) {
        Some(i) => if 0 <= i < s.len() {
            seq![s.subrange(0, i)] + split_char(tail(s, i + 1), c)
        } else {
            seq![s]
        },
        None => seq![s],
    }
}

/// The parts of `s` between occurrences of `c`.
pub fn split_char_exec(s: &[char], c: char) -> (r: Vec<Vec<char>>)
    ensures
        r@.len() == split_char(s@, c).len(),
        forall|k: int| 0 <= k < r@.len() ==> #[trigger] r@[k]@ == split_char(s@, c)[k],
{
    let mut out: Vec<Vec<char>> = Vec::new();
    let mut rest = slice_copy(s, 0, s.len());
    let ghost done: Seq<Seq<char>> = Seq::empty();
    assert(rest@ =~= s@);
    loop
        invariant
            out@.len() == done.len(),
            forall|k: int| 0 <= k < out@.len() ==> #[trigger] out@[k]@ == done[k],
            split_char(s@, c) == done + split_char(rest@, c),
        decreases rest@.len(),
    {
        match find_char(rest.as_slice(), c) {
            Some(i) => {
                assert(i < rest@.len() && rest@.len() == rest.len());
                let part = slice_copy(rest.as_slice(), 0, i);
                let next = slice_copy(rest.as_slice(), i + 1, rest.len());
                assert(next@ =~= tail(rest@, i + 1));
                proof {
                    assert(split_char(rest@, c) == seq![part@] + split_char(next@, c));
                    assert(done + split_char(rest@, c) =~= done.push(part@) + split_char(next@, c));
                    done = done.push(part@);
                }
                out.push(part);
                rest = next;
            },
            None => {
                proof {
                    assert(split_char(rest@, c) == seq![rest@]);
                    assert(done + split_char(rest@, c) =~= done.push(rest@));
                }
                out.push(rest);
                return out;
            },
        }
    }
}

} // verus!
