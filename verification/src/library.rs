//! What the skill and routine tools share: the scoped directory a library of
//! named files lives in, the payload of a new file, and the listing of the
//! files.
use vstd::prelude::*;
use crate::text::{
    append_chars, append_str, chars_of, ends_with, ends_with_exec, find, find_exec, owned,
    slice_copy, starts_with, starts_with_exec, string_of, tail, trim, trim_exec,
};

verus! {

/// `s` with every occurrence of the non-empty `p` removed, scanning left to
/// right (what `str::replace(p, "")` gives).
pub open spec fn remove_all(s: Seq<char>, p: Seq<char>) -> Seq<char>
    decreases s.len(),
{
    if p.len() == 0 {
        s
    } else {
        match find(s, p) {
            Some(i) => if 0 <= i && i + p.len() <= s.len() {
                s.subrange(0, i) + remove_all(tail(s, i + p.len()), p)
            } else {
                s
            },
            None => s,
        }
    }
}

/// `s` with every occurrence of the non-empty `p` removed.
pub fn remove_all_exec(s: &[char], p: &[char]) -> (r: Vec<char>)
    ensures
        r@ == remove_all(s@, p@),
{
    if p.len() == 0 {
        return slice_copy(s, 0, s.len());
    }
    let mut out: Vec<char> = Vec::new();
    let mut rest = slice_copy(s, 0, s.len());
    assert(rest@ =~= s@);
    loop
        invariant
            p@.len() > 0,
            remove_all(s@, p@) == out@ + remove_all(rest@, p@),
        decreases rest@.len(),
    {
        match find_exec(rest.as_slice(), p) {
            Some(i) => {
                let pl = p.len();
                assert(i + pl <= rest@.len() && rest@.len() == rest.len() && pl == p@.len());
                let head = slice_copy(rest.as_slice(), 0, i);
                let next = slice_copy(rest.as_slice(), i + pl, rest.len());
                assert(next@ =~= tail(rest@, i + p@.len()));
                let ghost before = out@;
                append_chars(&mut out, head.as_slice());
                assert(before + remove_all(rest@, p@) =~= out@ + remove_all(next@, p@));
                rest = next;
            },
            None => {
                let ghost before = out@;
                append_chars(&mut out, rest.as_slice());
                assert(before + remove_all(rest@, p@) =~= out@);
                return out;
            },
        }
    }
}

/// The directories, below the memory directory, of a library of `kind`
/// (`skills` or `routines`) for a scope name: `public_<name>/system/<kind>`
/// for a public scope, `private_<name>/<kind>` otherwise, where `<name>` is
/// the scope name without its `public_` or `private_` markers.
pub open spec fn spec_library_dirs(scope: Seq<char>, kind: Seq<char>) -> Seq<Seq<char>> {
    if starts_with(scope, "public_"@) {
        seq!["public_"@ + remove_all(scope, "public_"@), "system"@, kind]
    } else {
        seq!["private_"@ + remove_all(scope, "private_"@), kind]
    }
}

pub open spec fn strs(v: Seq<String>) -> Seq<Seq<char>> {
    v.map_values(|s: String| s@)
}

/// The directories of a library of `kind` for a scope name, outermost first.
pub fn library_dirs(scope: &str, kind: &str) -> (r: Vec<String>)
    ensures
        strs(r@) == spec_library_dirs(scope@, kind@),
{
    let s = chars_of(scope);
    let public = chars_of("public_");
    let mut v: Vec<String> = Vec::new();
    if starts_with_exec(s.as_slice(), public.as_slice()) {
        let mut first = chars_of("public_");
        let rest = remove_all_exec(s.as_slice(), public.as_slice());
        append_chars(&mut first, rest.as_slice());
        v.push(string_of(first.as_slice()));
        v.push(owned("system"));
        v.push(owned(kind));
    } else {
        let private = chars_of("private_");
        let mut first = chars_of("private_");
        let rest = remove_all_exec(s.as_slice(), private.as_slice());
        append_chars(&mut first, rest.as_slice());
        v.push(string_of(first.as_slice()));
        v.push(owned(kind));
    }
    assert(strs(v@) =~= spec_library_dirs(scope@, kind@));
    v
}

/// The content of a new file: everything after `content:[` up to the end of
/// the description, less a final `]`, trimmed.
pub open spec fn spec_new_file_content(desc: Seq<char>) -> Option<Seq<char>> {
    match find(desc, "content:["@) {
        Some(i) => {
            let end = if ends_with(desc, "]"@) { desc.len() - 1 } else { desc.len() as int };
            Some(trim(desc.subrange(i + 9, end)))
        },
        None => None,
    }
}

/// The content of a new file.
pub fn new_file_content(desc: &str) -> (r: Option<String>)
    ensures
        match spec_new_file_content(desc@) {
            Some(c) => r matches Some(x) && x@ == c,
            None => r is None,
        },
{
    let d = chars_of(desc);
    let m = chars_of("content:[");
    let close = chars_of("]");
    match find_exec(d.as_slice(), m.as_slice()) {
        Some(i) => {
            proof {
                reveal_strlit("content:[");
                reveal_strlit("]");
                crate::text::lemma_find_spec(d@, m@);
            }
            assert(m@.len() == 9 && close@.len() == 1);
            let n = d.len();
            let end = if ends_with_exec(d.as_slice(), close.as_slice()) {
                assert(d@.subrange(n - 1, n as int)[0] == d@[n - 1]);
                assert(d@.subrange(i as int, i + 9)[8] == d@[i + 8]);
                assert(d@[i + 8] == '[');
                n - 1
            } else {
                n
            };
            let body = slice_copy(d.as_slice(), i + 9, end);
            Some(string_of(trim_exec(body.as_slice()).as_slice()))
        },
        None => None,
    }
}

/// The files of `names` whose name ends with one of `exts`.
pub open spec fn with_ext(names: Seq<Seq<char>>, exts: Seq<Seq<char>>) -> Seq<Seq<char>>
    decreases names.len(),
{
    if names.len() == 0 {
        names
    } else {
        let p = with_ext(names.drop_last(), exts);
        if exists|k: int| 0 <= k < exts.len() && ends_with(names.last(), #[trigger] exts[k]) {
            p.push(names.last())
        } else {
            p
        }
    }
}

/// `ls` joined with `\n- `.
pub open spec fn join_items(ls: Seq<Seq<char>>) -> Seq<char>
    decreases ls.len(),
{
    if ls.len() == 0 {
        Seq::empty()
    } else if ls.len() == 1 {
        ls[0]
    } else {
        join_items(ls.drop_last()) + "\n- "@ + ls.last()
    }
}

/// The listing of a library: `empty` when no file has one of the extensions,
/// else `title` and the files one per line.
pub open spec fn spec_listing(names: Seq<Seq<char>>, exts: Seq<Seq<char>>, empty: Seq<char>, title: Seq<char>) -> Seq<char> {
    let fs = with_ext(names, exts);
    if fs.len() == 0 {
        empty
    } else {
        title + "\n- "@ + join_items(fs)
    }
}

fn has_ext(name: &[char], exts: &Vec<String>) -> (r: bool)
    ensures
        r == exists|k: int| 0 <= k < exts@.len() && ends_with(name@, #[trigger] strs(exts@)[k]),
{
    let mut i: usize = 0;
    while i < exts.len()
        invariant
            i <= exts@.len(),
            forall|k: int| 0 <= k < i ==> !ends_with(name@, #[trigger] strs(exts@)[k]),
        decreases exts.len() - i,
    {
        let e = chars_of(exts[i].as_str());
        if ends_with_exec(name, e.as_slice()) {
            assert(ends_with(name@, strs(exts@)[i as int]));
            return true;
        }
        i = i + 1;
    }
    false
}

/// The listing of a library whose directory holds the files `names`.
pub fn listing(names: &Vec<String>, exts: &Vec<String>, empty: &str, title: &str) -> (r: String)
    ensures
        r@ == spec_listing(strs(names@), strs(exts@), empty@, title@),
{
    let ghost ns = strs(names@);
    let ghost es = strs(exts@);
    let mut body: Vec<char> = Vec::new();
    let mut count: usize = 0;
    let mut i: usize = 0;
    while i < names.len()
        invariant
            i <= names@.len(),
            ns == strs(names@),
            es == strs(exts@),
            count == with_ext(ns.subrange(0, i as int), es).len(),
            body@ == join_items(with_ext(ns.subrange(0, i as int), es)),
            count <= i,
        decreases names.len() - i,
    {
        assert(ns.subrange(0, i + 1).drop_last() =~= ns.subrange(0, i as int));
        assert(ns.subrange(0, i + 1).last() == names@[i as int]@);
        let n = chars_of(names[i].as_str());
        if has_ext(n.as_slice(), exts) {
            let ghost p = with_ext(ns.subrange(0, i as int), es);
            assert(p.push(n@).drop_last() =~= p);
            if count > 0 {
                append_str(&mut body, "\n- ");
            }
            append_chars(&mut body, n.as_slice());
            count = count + 1;
        }
        i = i + 1;
    }
    assert(ns.subrange(0, i as int) =~= ns);
    if count == 0 {
        return owned(empty);
    }
    let mut o = chars_of(title);
    append_str(&mut o, "\n- ");
    append_chars(&mut o, body.as_slice());
    string_of(o.as_slice())
}

} // verus!
