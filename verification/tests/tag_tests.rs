use hive_agent::opencode::{extract_message, extract_tag, size_human};
use hive_agent::outreach::parse_outreach_param;
use hive_agent::tool_forge::extract_code;
use hive_agent::routines::extract_tag as routine_tag;
use hive_agent::skills::extract_tag as skill_tag;
use hive_agent::preferences::extract_tag as pref_tag;
use hive_agent::tags::{find_matching_bracket, matching_bracket_chars};

#[test]
fn opencode_tests_test_extract_tag() {
    let desc = "action:[create] project:[my-app] model:[qwen3:32b]";
    assert_eq!(extract_tag(desc, "action"), Some("create".into()));
    assert_eq!(extract_tag(desc, "project"), Some("my-app".into()));
    assert_eq!(extract_tag(desc, "model"), Some("qwen3:32b".into()));
    assert_eq!(extract_tag(desc, "missing"), None);
}

#[test]
fn test_extract_message() {
    let desc = "action:[prompt] session:[abc] message:[Build a React app with state management]";
    assert_eq!(extract_message(desc), Some("Build a React app with state management".into()));
}

#[test]
fn test_extract_message_with_brackets() {
    let desc = "message:[Create an array like [1, 2, 3] in Python]";
    assert_eq!(extract_message(desc), Some("Create an array like [1, 2, 3] in Python".into()));
}

/// A directory that does not exist holds no bytes.
#[test]
fn test_dir_size_human() {
    assert_eq!(size_human(0), "0 B");
}

#[test]
fn size_human_picks_the_unit() {
    assert_eq!(size_human(1024), "1024 B");
    assert_eq!(size_human(1536), "1.5 KB");
    assert_eq!(size_human(3 * 1048576), "3.0 MB");
    assert_eq!(size_human(5 * 1073741824 + 536870912), "5.5 GB");
}

#[test]
fn test_parse_outreach_param() {
    let desc = "action:[send] user_id:[123]";
    assert_eq!(parse_outreach_param(desc, "action"), Some("send".into()));
    assert_eq!(parse_outreach_param(desc, "user_id"), Some("123".into()));
    assert_eq!(parse_outreach_param(desc, "missing"), None);
}

#[test]
fn routines_test_extract_tag() {
    assert_eq!(routine_tag("name:[hello.md]", "name:"), Some("hello.md".into()));
    assert_eq!(routine_tag("action:[read] scope:[private_userX]", "action:"), Some("read".into()));
    assert_eq!(routine_tag("action:[read] scope:[private_userX]", "scope:"), Some("private_userX".into()));
    assert_eq!(routine_tag("invalid", "name:"), None);
}

#[test]
fn test_extract_tag_skills() {
    assert_eq!(skill_tag("name:[hello.py]", "name:"), Some("hello.py".into()));
    assert_eq!(skill_tag("invalid", "name:"), None);
}

#[test]
fn test_extract_code() {
    let desc = "action:[create] name:[test] code:[print('hello')]";
    assert_eq!(extract_code(desc), Some("print('hello')".into()));
    let desc2 = "code:[arr = [1, 2, 3]]";
    assert_eq!(extract_code(desc2), Some("arr = [1, 2, 3]".into()));
}

#[test]
fn preferences_extract_tag_reads_to_first_close() {
    assert_eq!(pref_tag("action:[add_hobby] value:[x]", "action:"), Some("add_hobby".into()));
    assert_eq!(pref_tag("time: +5m", "time:"), Some("+5m".into()));
    assert_eq!(pref_tag("nothing here", "time:"), None);
}

#[test]
fn matching_bracket_is_a_byte_index() {
    assert_eq!(find_matching_bracket("a [b] c] x"), Some(7));
    assert_eq!(find_matching_bracket("]"), Some(0));
    assert_eq!(find_matching_bracket("[]"), None);
    assert_eq!(find_matching_bracket("é]"), Some(2));
    let s = "日本[x]語] rest";
    let i = find_matching_bracket(s).unwrap();
    assert_eq!(&s[..i], "日本[x]語");
    let chars: Vec<char> = "é]".chars().collect();
    assert_eq!(matching_bracket_chars(&chars), Some(1));
}

#[test]
fn size_human_agrees_with_float_formatting() {
    // quotients by powers of two are exact floats, ties included
    for n in [1280u64, 1536, 2304, 1024 * 1024 + 52429, 3 * 1048576 + 262144, 1073741824 + 107374182] {
        let expected = if n > 1073741824 {
            format!("{:.1} GB", n as f64 / 1073741824.0)
        } else if n > 1048576 {
            format!("{:.1} MB", n as f64 / 1048576.0)
        } else {
            format!("{:.1} KB", n as f64 / 1024.0)
        };
        assert_eq!(size_human(n), expected);
    }
}
