//! Containment cone: the agent may edit anything except the infrastructure that
//! keeps it containerised.  These checks decide, for a file path or a shell
//! command, whether it touches that boundary.
use vstd::prelude::*;
use crate::text::{
    chars_of, concat, contains, contains_exec, ends_with, ends_with_exec, eq_chars, find,
    lemma_find_spec, occurs_at, owned,
    strip_prefix_rep, strip_prefix_rep_exec, strip_start, strip_start_exec, string_of, trim,
    trim_exec, CharClass,
};

verus! {

/// The files that form the containment boundary, in the order they are checked.
pub open spec fn containment_files() -> Seq<Seq<char>> {
    seq![
        "Dockerfile"@,
        "docker-compose.yml"@,
        "docker-compose.yaml"@,
        ".dockerignore"@,
        "launch.sh"@,
        "start-hive.sh"@,
        ".docker"@,
    ]
}

/// The same files as they appear in a lower-cased command.
pub open spec fn containment_files_lower() -> Seq<Seq<char>> {
    seq![
        "dockerfile"@,
        "docker-compose.yml"@,
        "docker-compose.yaml"@,
        ".dockerignore"@,
        "launch.sh"@,
        "start-hive.sh"@,
        ".docker"@,
    ]
}

/// The command fragments that could modify or escape the container, in order.
pub open spec fn containment_commands() -> Seq<Seq<char>> {
    seq![
        "docker "@,
        "docker-compose "@,
        "dockerd"@,
        "nsenter"@,
        "chroot"@,
        "mount "@,
        "umount "@,
        "unshare "@,
        "pivot_root"@,
        "capsh"@,
        "setns"@,
    ]
}

pub fn containment_file(k: usize) -> (r: &'static str)
    requires
        k < 7,
    ensures
        r@ == containment_files()[k as int],
{
    match k {
        0 => "Dockerfile",
        1 => "docker-compose.yml",
        2 => "docker-compose.yaml",
        3 => ".dockerignore",
        4 => "launch.sh",
        5 => "start-hive.sh",
        _ => ".docker",
    }
}

fn containment_file_lower(k: usize) -> (r: &'static str)
    requires
        k < 7,
    ensures
        r@ == containment_files_lower()[k as int],
{
    match k {
        0 => "dockerfile",
        1 => "docker-compose.yml",
        2 => "docker-compose.yaml",
        3 => ".dockerignore",
        4 => "launch.sh",
        5 => "start-hive.sh",
        _ => ".docker",
    }
}

fn containment_command(k: usize) -> (r: &'static str)
    requires
        k < 11,
    ensures
        r@ == containment_commands()[k as int],
{
    match k {
        0 => "docker ",
        1 => "docker-compose ",
        2 => "dockerd",
        3 => "nsenter",
        4 => "chroot",
        5 => "mount ",
        6 => "umount ",
        7 => "unshare ",
        8 => "pivot_root",
        9 => "capsh",
        _ => "setns",
    }
}

// ───────────────────────── paths ─────────────────────────

/// The form of a path that is compared with the boundary files: trimmed, with
/// every leading `./` and then every leading `/` removed.
pub open spec fn normalize_path(path: Seq<char>) -> Seq<char> {
    strip_start(strip_prefix_rep(trim(path), seq!['.', '/']), CharClass::Slash)
}

/// Whether the path (normalised, with its final component `basename`) touches
/// the boundary file `protected`.
pub open spec fn path_hits(normalized: Seq<char>, basename: Seq<char>, protected: Seq<char>) -> bool {
    ||| normalized == protected
    ||| basename == protected
    ||| ends_with(normalized, seq!['/'] + protected)
}

/// The first boundary file, from index `k` on, that the path touches.
pub open spec fn first_path_hit(normalized: Seq<char>, basename: Seq<char>, k: int) -> Option<int>
    decreases 7 - k,
{
    if k < 0 || k >= 7 {
        None
    } else if path_hits(normalized, basename, containment_files()[k]) {
        Some(k)
    } else {
        first_path_hit(normalized, basename, k + 1)
    }
}

/// The final component of a path, as `std::path::Path::file_name` computes it.
pub uninterp spec fn path_file_name(path: Seq<char>) -> Option<Seq<char>>;

/// `std::path::Path::file_name` followed by `OsStr::to_str`: the final component
/// of `path`, or `None` when the path has none (it is empty, is a root, or ends in
/// `..`).  The component of a `&str` path is always valid UTF-8, so `to_str`
/// never fails here.  What the component is, is left to the name
/// `path_file_name`.
#[verifier::external_body]
pub(crate) fn file_name_of(path: &str) -> (r: Option<String>)
    ensures
        match r {
            Some(s) => path_file_name(path@) == Some(s@),
            None => path_file_name(path@) is None,
        },
{
    std::path::Path::new(path).file_name().and_then(|f| f.to_str()).map(|f| f.to_string())
}

/// The basename used for a normalised path: its final component, or the whole
/// path when it has none.
pub open spec fn basename_of(normalized: Seq<char>) -> Seq<char> {
    match path_file_name(normalized) {
        Some(b) => b,
        None => normalized,
    }
}

/// The boundary file that `path` touches, if any.
pub open spec fn spec_check_path(path: Seq<char>) -> Option<Seq<char>> {
    let n = normalize_path(path);
    match first_path_hit(n, basename_of(n), 0) {
        Some(k) => Some(containment_files()[k]),
        None => None,
    }
}

/// The boundary file that a normalised path with final component `basename`
/// touches: the first of the files, in order, that equals the path, equals the
/// basename, or ends the path after a `/`.
pub fn check_normalized_path(normalized: &str, basename: &str) -> (r: Option<&'static str>)
    ensures
        match first_path_hit(normalized@, basename@, 0) {
            Some(k) => r matches Some(p) && p@ == containment_files()[k],
            None => r is None,
        },
{
    let n = chars_of(normalized);
    let b = chars_of(basename);
    let slash = vec!['/'];
    let mut k: usize = 0;
    while k < 7
        invariant
            k <= 7,
            n@ == normalized@,
            b@ == basename@,
            slash@ == seq!['/'],
            first_path_hit(normalized@, basename@, 0) == first_path_hit(
                normalized@,
                basename@,
                k as int,
            ),
        decreases 7 - k,
    {
        let protected = containment_file(k);
        let pc = chars_of(protected);
        let suffix = concat(slash.as_slice(), pc.as_slice());
        if eq_chars(n.as_slice(), pc.as_slice()) || eq_chars(b.as_slice(), pc.as_slice())
            || ends_with_exec(n.as_slice(), suffix.as_slice()) {
            return Some(protected);
        }
        k = k + 1;
    }
    None
}

/// Whether a file path touches a containment boundary file; the file it
/// touches, if so.  The path is trimmed and stripped of leading `./` and `/`; it
/// is blocked when it, its final component, or its end after a `/` names a
/// boundary file.
pub fn check_path(path: &str) -> (r: Option<&'static str>)
    ensures
        match spec_check_path(path@) {
            Some(p) => r matches Some(x) && x@ == p,
            None => r is None,
        },
{
    let p = chars_of(path);
    let t = trim_exec(p.as_slice());
    let dot_slash = vec!['.', '/'];
    assert(dot_slash@ =~= seq!['.', '/']);
    let a = strip_prefix_rep_exec(t.as_slice(), dot_slash.as_slice());
    let nchars = strip_start_exec(a.as_slice(), CharClass::Slash);
    let normalized = string_of(nchars.as_slice());
    let basename = match file_name_of(normalized.as_str()) {
        Some(b) => b,
        None => owned(normalized.as_str()),
    };
    check_normalized_path(normalized.as_str(), basename.as_str())
}

// ───────────────────────── commands ─────────────────────────

/// The shell fragments that would modify the boundary file whose lower-cased
/// name is `f`: redirection into it, `tee`, `mv`, `cp`, `rm`, `chmod`, `chown`.
pub open spec fn write_patterns(f: Seq<char>) -> Seq<Seq<char>> {
    seq![
        seq!['>'] + f,
        "> "@ + f,
        ">>"@ + f,
        ">> "@ + f,
        "tee "@ + f,
        "mv "@ + f,
        "cp "@ + f,
        "rm "@ + f,
        "rm -f "@ + f,
        "rm -rf "@ + f,
        "chmod "@ + f,
        "chown "@ + f,
    ]
}

/// An in-place `sed` edit that names the boundary file `f`.
pub open spec fn sed_edits_file(lower: Seq<char>, f: Seq<char>) -> bool {
    contains(lower, "sed -i"@) && contains(lower, f)
}

/// `lower` writes to the boundary file `f`: some write pattern of `f` occurs
/// in it, or it edits `f` in place with `sed -i`.  An in-place edit of any
/// other file is allowed.
pub open spec fn writes_file(lower: Seq<char>, f: Seq<char>) -> bool {
    ||| exists|j: int| 0 <= j < 12 && contains(lower, #[trigger] write_patterns(f)[j])
    ||| sed_edits_file(lower, f)
}

/// The first forbidden command fragment, from index `k` on, in `lower`.
pub open spec fn first_command_hit(lower: Seq<char>, k: int) -> Option<int>
    decreases 11 - k,
{
    if k < 0 || k >= 11 {
        None
    } else if contains(lower, containment_commands()[k]) {
        Some(k)
    } else {
        first_command_hit(lower, k + 1)
    }
}

/// The first boundary file, from index `k` on, that `lower` writes to.
pub open spec fn first_write_hit(lower: Seq<char>, k: int) -> Option<int>
    decreases 7 - k,
{
    if k < 0 || k >= 7 {
        None
    } else if writes_file(lower, containment_files_lower()[k]) {
        Some(k)
    } else {
        first_write_hit(lower, k + 1)
    }
}

/// The message for a command that holds the forbidden fragment `blocked`.
pub open spec fn breach_message(blocked: Seq<char>) -> Seq<char> {
    "Command contains '"@ + trim(blocked) + "' which could breach the containment boundary"@
}

/// The message for a command that would modify the boundary file `f`.
pub open spec fn modify_message(f: Seq<char>) -> Seq<char> {
    "Command would modify containment file '"@ + f + "'"@
}

/// The verdict on a lower-cased command: the message for the first forbidden
/// fragment it holds; else the message for the first boundary file it writes to;
/// else none.
pub open spec fn spec_check_lowered(lower: Seq<char>) -> Option<Seq<char>> {
    match first_command_hit(lower, 0) {
        Some(k) => Some(breach_message(containment_commands()[k])),
        None => match first_write_hit(lower, 0) {
            Some(k) => Some(modify_message(containment_files()[k])),
            None => None,
        },
    }
}

/// `a ++ b ++ c` as a `String`.
fn join3(a: &str, b: &[char], c: &str) -> (r: String)
    ensures
        r@ == a@ + b@ + c@,
{
    let x = chars_of(a);
    let z = chars_of(c);
    let xy = concat(x.as_slice(), b);
    let xyz = concat(xy.as_slice(), z.as_slice());
    string_of(xyz.as_slice())
}

fn write_pattern(f: &[char], j: usize) -> (r: Vec<char>)
    requires
        j < 12,
    ensures
        r@ == write_patterns(f@)[j as int],
{
    let head: &str = match j {
        0 => ">",
        1 => "> ",
        2 => ">>",
        3 => ">> ",
        4 => "tee ",
        5 => "mv ",
        6 => "cp ",
        7 => "rm ",
        8 => "rm -f ",
        9 => "rm -rf ",
        10 => "chmod ",
        _ => "chown ",
    };
    let h = chars_of(head);
    proof {
        reveal_strlit(">");
    }
    concat(h.as_slice(), f)
}

/// Whether `lower` writes to the boundary file with lower-cased name `f`.
fn writes_file_exec(lower: &[char], f: &[char]) -> (r: bool)
    ensures
        r == writes_file(lower@, f@),
{
    let mut j: usize = 0;
    while j < 12
        invariant
            j <= 12,
            forall|i: int| 0 <= i < j ==> !contains(lower@, #[trigger] write_patterns(f@)[i]),
        decreases 12 - j,
    {
        let p = write_pattern(f, j);
        if contains_exec(lower, p.as_slice()) {
            return true;
        }
        j = j + 1;
    }
    let sed = chars_of("sed -i");
    contains_exec(lower, sed.as_slice()) && contains_exec(lower, f)
}

/// The verdict on a command that is already lower-cased: a message naming the
/// first forbidden fragment (`docker `, `nsenter`, `mount `, …) it holds, else a
/// message naming the first boundary file it would write to (redirection,
/// `tee`, `mv`, `cp`, `rm`, `chmod`, `chown`, or `sed -i` naming it), else `None`.
pub fn check_lowered_command(lower: &str) -> (r: Option<String>)
    ensures
        match spec_check_lowered(lower@) {
            Some(m) => r matches Some(x) && x@ == m,
            None => r is None,
        },
{
    let l = chars_of(lower);
    let mut k: usize = 0;
    while k < 11
        invariant
            k <= 11,
            l@ == lower@,
            first_command_hit(lower@, 0) == first_command_hit(lower@, k as int),
        decreases 11 - k,
    {
        let blocked = containment_command(k);
        let b = chars_of(blocked);
        if contains_exec(l.as_slice(), b.as_slice()) {
            let bt = trim_exec(b.as_slice());
            return Some(
                join3(
                    "Command contains '",
                    bt.as_slice(),
                    "' which could breach the containment boundary",
                ),
            );
        }
        k = k + 1;
    }
    let mut k: usize = 0;
    while k < 7
        invariant
            k <= 7,
            l@ == lower@,
            first_command_hit(lower@, 0) is None,
            first_write_hit(lower@, 0) == first_write_hit(lower@, k as int),
        decreases 7 - k,
    {
        let f = chars_of(containment_file_lower(k));
        if writes_file_exec(l.as_slice(), f.as_slice()) {
            let name = chars_of(containment_file(k));
            return Some(join3("Command would modify containment file '", name.as_slice(), "'"));
        }
        k = k + 1;
    }
    None
}

/// A command that holds `h + f` also holds `f`.
proof fn lemma_contains_suffix_part(s: Seq<char>, h: Seq<char>, f: Seq<char>)
    requires
        contains(s, h + f),
    ensures
        contains(s, f),
{
    lemma_find_spec(s, h + f);
    let k = find(s, h + f)->0;
    assert(s.subrange(k + h.len(), k + h.len() + f.len()) =~= (h + f).subrange(
        h.len() as int,
        (h + f).len() as int,
    ));
    assert(occurs_at(s, f, k + h.len()));
    lemma_find_spec(s, f);
}

/// With none of the forbidden fragments in `lower`, no fragment from `k` on is hit.
proof fn lemma_no_command_hit(lower: Seq<char>, k: int)
    requires
        0 <= k <= 11,
        forall|c: int| 0 <= c < 11 ==> !contains(lower, #[trigger] containment_commands()[c]),
    ensures
        first_command_hit(lower, k) is None,
    decreases 11 - k,
{
    if k < 11 {
        lemma_no_command_hit(lower, k + 1);
    }
}

/// If `lower` writes to the boundary file `k`, the first file written from `s`
/// on is at most `k`; it is `k` where no file in between is named in `lower`.
proof fn lemma_first_write_hit_upto(lower: Seq<char>, s: int, k: int)
    requires
        0 <= s <= k < 7,
        writes_file(lower, containment_files_lower()[k]),
    ensures
        first_write_hit(lower, s) matches Some(m) && s <= m <= k,
        (forall|m: int| s <= m < k ==> !contains(lower, #[trigger] containment_files_lower()[m]))
            ==> first_write_hit(lower, s) == Some(k),
    decreases k - s,
{
    if s < k {
        lemma_first_write_hit_upto(lower, s + 1, k);
        if forall|m: int| s <= m < k ==> !contains(lower, #[trigger] containment_files_lower()[m]) {
            let f = containment_files_lower()[s];
            assert(!contains(lower, f));
            lemma_not_named_not_written(lower, f);
            assert(!writes_file(lower, f));
        }
    }
}

/// A command that holds none of the forbidden fragments and writes to a
/// boundary file by any of the listed means (`>`, `> `, `>>`, `>> `, `tee `,
/// `mv `, `cp `, `rm `, `rm -f `, `rm -rf `, `chmod ` or `chown ` directly
/// before the file's lower-cased name) is refused as a modification of a
/// boundary file; where no earlier boundary file is named in it, the refusal
/// names that file.
pub proof fn law_writing_a_boundary_file_is_refused(lower: Seq<char>, k: int, head: Seq<char>)
    requires
        0 <= k < 7,
        forall|c: int| 0 <= c < 11 ==> !contains(lower, #[trigger] containment_commands()[c]),
        head == ">"@ || head == "> "@ || head == ">>"@ || head == ">> "@ || head == "tee "@
            || head == "mv "@ || head == "cp "@ || head == "rm "@ || head == "rm -f "@ || head
            == "rm -rf "@ || head == "chmod "@ || head == "chown "@,
        contains(lower, head + containment_files_lower()[k]),
    ensures
        exists|m: int|
            0 <= m <= k && spec_check_lowered(lower) == Some(
                "Command would modify containment file '"@ + #[trigger] containment_files()[m]
                    + "'"@,
            ),
        (forall|m: int| 0 <= m < k ==> !contains(lower, #[trigger] containment_files_lower()[m]))
            ==> spec_check_lowered(lower) == Some(
            "Command would modify containment file '"@ + containment_files()[k] + "'"@,
        ),
{
    let f = containment_files_lower()[k];
    reveal_strlit(">");
    assert(write_patterns(f)[0] =~= ">"@ + f);
    let j: int = if head == ">"@ {
        0
    } else if head == "> "@ {
        1
    } else if head == ">>"@ {
        2
    } else if head == ">> "@ {
        3
    } else if head == "tee "@ {
        4
    } else if head == "mv "@ {
        5
    } else if head == "cp "@ {
        6
    } else if head == "rm "@ {
        7
    } else if head == "rm -f "@ {
        8
    } else if head == "rm -rf "@ {
        9
    } else if head == "chmod "@ {
        10
    } else {
        11
    };
    assert(write_patterns(f)[j] == head + f);
    assert(writes_file(lower, f));
    lemma_no_command_hit(lower, 0);
    lemma_first_write_hit_upto(lower, 0, k);
    let m = first_write_hit(lower, 0)->0;
    assert(0 <= m <= k && spec_check_lowered(lower) == Some(
        "Command would modify containment file '"@ + containment_files()[m] + "'"@,
    ));
}

/// A command that holds a forbidden fragment is refused as a breach, naming the
/// first fragment of the list that it holds, which is that one or an earlier one.
pub proof fn law_forbidden_fragment_is_refused(lower: Seq<char>, c: int)
    requires
        0 <= c < 11,
        contains(lower, containment_commands()[c]),
    ensures
        exists|m: int|
            0 <= m <= c && spec_check_lowered(lower) == Some(
                "Command contains '"@ + trim(#[trigger] containment_commands()[m])
                    + "' which could breach the containment boundary"@,
            ),
{
    lemma_first_command_hit_upto(lower, 0, c);
    let m = first_command_hit(lower, 0)->0;
    assert(0 <= m <= c && spec_check_lowered(lower) == Some(
        "Command contains '"@ + trim(containment_commands()[m])
            + "' which could breach the containment boundary"@,
    ));
}

/// If `lower` holds the forbidden fragment `c`, the first one hit from `s` on is at most `c`.
proof fn lemma_first_command_hit_upto(lower: Seq<char>, s: int, c: int)
    requires
        0 <= s <= c < 11,
        contains(lower, containment_commands()[c]),
    ensures
        first_command_hit(lower, s) matches Some(m) && s <= m <= c,
    decreases c - s,
{
    if s < c {
        lemma_first_command_hit_upto(lower, s + 1, c);
    }
}

/// An in-place `sed` edit of a boundary file, in a command with no forbidden
/// fragment, is refused as a modification of a boundary file.
pub proof fn law_sed_edit_of_boundary_file_is_refused(lower: Seq<char>, k: int)
    requires
        0 <= k < 7,
        forall|c: int| 0 <= c < 11 ==> !contains(lower, #[trigger] containment_commands()[c]),
        contains(lower, "sed -i"@),
        contains(lower, containment_files_lower()[k]),
    ensures
        exists|m: int|
            0 <= m <= k && spec_check_lowered(lower) == Some(
                "Command would modify containment file '"@ + #[trigger] containment_files()[m]
                    + "'"@,
            ),
{
    assert(writes_file(lower, containment_files_lower()[k]));
    lemma_no_command_hit(lower, 0);
    lemma_first_write_hit_upto(lower, 0, k);
    let m = first_write_hit(lower, 0)->0;
    assert(0 <= m <= k && spec_check_lowered(lower) == Some(
        "Command would modify containment file '"@ + containment_files()[m] + "'"@,
    ));
}

/// A command that holds no forbidden fragment and names no boundary file is
/// allowed.
pub proof fn law_unrelated_command_is_allowed(lower: Seq<char>)
    requires
        forall|c: int| 0 <= c < 11 ==> !contains(lower, #[trigger] containment_commands()[c]),
        forall|k: int| 0 <= k < 7 ==> !contains(lower, #[trigger] containment_files_lower()[k]),
    ensures
        spec_check_lowered(lower) is None,
{
    lemma_no_command_hit(lower, 0);
    lemma_no_write_hit(lower, 0);
}

/// With no boundary file named in `lower`, no file from `k` on is written.
proof fn lemma_no_write_hit(lower: Seq<char>, k: int)
    requires
        0 <= k <= 7,
        forall|m: int| 0 <= m < 7 ==> !contains(lower, #[trigger] containment_files_lower()[m]),
    ensures
        first_write_hit(lower, k) is None,
    decreases 7 - k,
{
    if k < 7 {
        lemma_not_named_not_written(lower, containment_files_lower()[k]);
        lemma_no_write_hit(lower, k + 1);
    }
}

/// A command that does not name `f` does not write to it.
proof fn lemma_not_named_not_written(lower: Seq<char>, f: Seq<char>)
    requires
        !contains(lower, f),
    ensures
        !writes_file(lower, f),
{
    assert forall|j: int| 0 <= j < 12 implies !contains(
        lower,
        #[trigger] write_patterns(f)[j],
    ) by {
        if contains(lower, write_patterns(f)[j]) {
            reveal_strlit(">");
            assert(write_patterns(f)[0] =~= ">"@ + f);
            let h: Seq<char> = if j == 0 {
                ">"@
            } else if j == 1 {
                "> "@
            } else if j == 2 {
                ">>"@
            } else if j == 3 {
                ">> "@
            } else if j == 4 {
                "tee "@
            } else if j == 5 {
                "mv "@
            } else if j == 6 {
                "cp "@
            } else if j == 7 {
                "rm "@
            } else if j == 8 {
                "rm -f "@
            } else if j == 9 {
                "rm -rf "@
            } else if j == 10 {
                "chmod "@
            } else {
                "chown "@
            };
            assert(write_patterns(f)[j] == h + f);
            lemma_contains_suffix_part(lower, h, f);
        }
    }
}

/// `str::to_lowercase`: the lower-case mapping of `s` under the Unicode
/// `Lowercase` property.  Its result is left to the name `lowercase`.
pub uninterp spec fn lowercase(s: Seq<char>) -> Seq<char>;

/// `str::to_lowercase`.  The contract ties the result to `lowercase` of the
/// argument and states nothing else of it.
#[verifier::external_body]
pub(crate) fn to_lowercase(s: &str) -> (r: String)
    ensures
        r@ == lowercase(s@),
{
    s.to_lowercase()
}

/// Whether a shell command attempts to breach containment; the reason, if so.
/// The command is lower-cased and then judged by [`check_lowered_command`].
pub fn check_command(cmd: &str) -> (r: Option<String>)
    ensures
        match spec_check_lowered(lowercase(cmd@)) {
            Some(m) => r matches Some(x) && x@ == m,
            None => r is None,
        },
{
    let lower = to_lowercase(cmd);
    check_lowered_command(lower.as_str())
}

} // verus!
