use hive_agent::download::{download_done_text, fetch_in_background, file_links, parse_download_request, DownloadCommand};
use hive_agent::email::{parse_email_request, sender_mailbox, smtp_settings};
use hive_agent::lessons::{lesson_matches_query, parse_keywords, parse_lesson_command, LessonCommand};
use hive_agent::library::{library_dirs, listing, new_file_content};
use hive_agent::models::Scope;
use hive_agent::preferences::{apply_preference, parse_pref_request, PreferenceAction, UserPreferences, MISSING_ACTION_TEXT};
use hive_agent::routines::{parse_routine_command, RoutineCommand};
use hive_agent::skills::{parse_skill_command, skill_interpreter, skill_report, SkillCommand, SkillRun, SKILL_DENIED_TEXT};

fn profile() -> UserPreferences {
    UserPreferences {
        name: None,
        hobbies: vec![],
        topics_of_interest: vec![],
        narrative_history: String::new(),
        psychoanalysis: String::new(),
    }
}

#[test]
fn preference_requests() {
    let (a, v) = parse_pref_request("action:[add_hobby] value:[chess]").unwrap();
    assert_eq!(a, PreferenceAction::AddHobby);
    assert_eq!(v, "chess");
    let e = parse_pref_request("value:[x]").err().unwrap();
    assert_eq!((e.output.as_str(), e.reason.as_str()), (MISSING_ACTION_TEXT, "Missing action"));
    let e = parse_pref_request("action:[add_hobby]").err().unwrap();
    assert_eq!((e.output.as_str(), e.reason.as_str()), ("Error: Missing `value:` tag payload.", "Missing value"));
    let e = parse_pref_request("action:[fly] value:[x]").err().unwrap();
    assert_eq!((e.output.as_str(), e.reason.as_str()), ("Error: Unknown action 'fly'.", "Invalid action"));
}

#[test]
fn preference_changes_apply_once() {
    let mut p = profile();
    assert_eq!(apply_preference(&mut p, PreferenceAction::AddHobby, "chess"), "Hobby added: chess");
    assert_eq!(apply_preference(&mut p, PreferenceAction::AddHobby, "chess"), "Hobby already exists: chess");
    assert_eq!(p.hobbies, vec!["chess".to_string()]);
    assert_eq!(apply_preference(&mut p, PreferenceAction::AddTopic, "rust"), "Topic of interest added: rust");
    assert_eq!(apply_preference(&mut p, PreferenceAction::UpdateName, "Ada"), "User name updated to: Ada");
    assert_eq!(p.name, Some("Ada".to_string()));
    assert_eq!(
        apply_preference(&mut p, PreferenceAction::UpdateNarrative, "met in May"),
        "Narrative history overwritten/updated."
    );
    assert_eq!(p.narrative_history, "met in May");
    assert_eq!(apply_preference(&mut p, PreferenceAction::UpdatePsychoanalysis, "calm"), "Psychological profile updated.");
    assert_eq!(p.psychoanalysis, "calm");
}

#[test]
fn skill_requests() {
    let e = parse_skill_command("action:[list]", false).err().unwrap();
    assert_eq!((e.output.as_str(), e.reason.as_str()), (SKILL_DENIED_TEXT, "Permission Denied"));
    let (scope, cmd) = parse_skill_command("action:[list]", true).unwrap();
    assert_eq!(scope, "public_general");
    assert!(matches!(cmd, SkillCommand::List));
    match parse_skill_command("action:[create] name:[hi.py] scope:[private_ada] content:[print(1)]", true).unwrap() {
        (scope, SkillCommand::Create { name, content }) => {
            assert_eq!(scope, "private_ada");
            assert_eq!((name.as_str(), content.as_str()), ("hi.py", "print(1)"));
        }
        _ => panic!("expected a creation"),
    }
    match parse_skill_command("action:[create] name:[notes.txt] content:[x]", true).unwrap().1 {
        SkillCommand::Reply { text } => assert_eq!(text, "Error: Skill name must end with .py or .sh"),
        _ => panic!("expected a reply"),
    }
    let e = parse_skill_command("action:[execute] name:[../x.py]", true).err().unwrap();
    assert_eq!((e.output.as_str(), e.reason.as_str()), ("Error: Invalid skill name.", "Path traversal"));
    let e = parse_skill_command("action:[create] name:[a.sh]", true).err().unwrap();
    assert_eq!(e.output, "Error: Missing content.");
    match parse_skill_command("action:[dance]", true).unwrap().1 {
        SkillCommand::Reply { text } => assert_eq!(text, "Unknown action 'dance'. Use create, list, or execute."),
        _ => panic!("expected a reply"),
    }
    assert_eq!(skill_interpreter("a.py"), "python3");
    assert_eq!(skill_interpreter("a.sh"), "bash");
}

#[test]
fn skill_reports() {
    let ok = SkillRun::Exited { success: true, status: "0".to_string(), stdout: "out".to_string(), stderr: "err".to_string() };
    assert_eq!(skill_report(&ok), "--- SKILL SUCCESS ---\nout\nerr");
    let bad = SkillRun::Exited { success: false, status: "2".to_string(), stdout: "o".to_string(), stderr: "e".to_string() };
    assert_eq!(skill_report(&bad), "--- SKILL FAILED (Code: 2) ---\no\ne");
    assert_eq!(skill_report(&SkillRun::TimedOut), "Skill execution timed out after 30 seconds. Process killed.");
}

#[test]
fn routine_requests() {
    match parse_routine_command("action:[create] name:[morning.md] content:[# Wake up]").unwrap() {
        (scope, RoutineCommand::Create { name, content }) => {
            assert_eq!(scope, "public_general");
            assert_eq!((name.as_str(), content.as_str()), ("morning.md", "# Wake up"));
        }
        _ => panic!("expected a creation"),
    }
    match parse_routine_command("action:[read]").unwrap().1 {
        RoutineCommand::Reply { text } => assert_eq!(text, "Error: Must specify name:[routine.md]"),
        _ => panic!("expected a reply"),
    }
    match parse_routine_command("action:[create] name:[x.py] content:[y]").unwrap().1 {
        RoutineCommand::Reply { text } => assert_eq!(text, "Error: Routine name must end with .md"),
        _ => panic!("expected a reply"),
    }
    let e = parse_routine_command("action:[read] name:[a/b.md]").err().unwrap();
    assert_eq!(e.output, "Error: Invalid routine name.");
}

#[test]
fn library_helpers() {
    assert_eq!(library_dirs("public_general", "skills"), vec!["public_general", "system", "skills"]);
    assert_eq!(library_dirs("private_ada", "routines"), vec!["private_ada", "routines"]);
    assert_eq!(library_dirs("ada", "routines"), vec!["private_ada", "routines"]);
    assert_eq!(new_file_content("content:[ print('[x]') ]"), Some("print('[x]')".to_string()));
    assert_eq!(new_file_content("nothing"), None);
    let names = vec!["a.py".to_string(), "notes.txt".to_string(), "b.sh".to_string()];
    let exts = vec![".py".to_string(), ".sh".to_string()];
    assert_eq!(listing(&names, &exts, "No skills.", "Skills:"), "Skills:\n- a.py\n- b.sh");
    assert_eq!(listing(&vec![], &exts, "No skills.", "Skills:"), "No skills.");
}

#[test]
fn lesson_requests() {
    assert_eq!(parse_keywords(" Rust, ,TESTS "), vec!["rust".to_string(), "tests".to_string()]);
    match parse_lesson_command("action:[Store] lesson:[Check twice] keywords:[care] scope:[public_42]").unwrap() {
        LessonCommand::Store { lesson, keywords, confidence, scope } => {
            assert_eq!(lesson, "Check twice");
            assert_eq!(keywords, vec!["care".to_string()]);
            assert_eq!(confidence, "1.0");
            match scope {
                Some(Scope::Public { channel_id, user_id }) => {
                    assert_eq!((channel_id.as_str(), user_id.as_str()), ("42", "system"))
                }
                _ => panic!("expected a public scope"),
            }
        }
        _ => panic!("expected a store"),
    }
    let e = parse_lesson_command("lesson:[x]").err().unwrap();
    assert_eq!((e.output.as_str(), e.reason.as_str()), ("Error: Missing 'action:' field.", "Missing action field"));
    let e = parse_lesson_command("action:[store]").err().unwrap();
    assert_eq!(e.output, "Error: Missing 'lesson:' field for store action.");
    match parse_lesson_command("action:[search] query:[RUST]").unwrap() {
        LessonCommand::Search { query } => assert_eq!(query, "rust"),
        _ => panic!("expected a search"),
    }
    let e = parse_lesson_command("action:[forget]").err().unwrap();
    assert_eq!(e.output, "Unknown action 'forget'. Valid actions: store, read, search.");
    assert!(lesson_matches_query("Always TEST first", &vec![], "test"));
    assert!(lesson_matches_query("x", &vec!["rust".to_string()], "rus"));
    assert!(!lesson_matches_query("x", &vec!["go".to_string()], "rust"));
}

#[test]
fn email_requests() {
    let m = parse_email_request("to:[a@b.c] body:[hi]").unwrap();
    assert_eq!((m.to.as_str(), m.subject.as_str(), m.body.as_str()), ("a@b.c", "HIVE Transmission", "hi"));
    let e = parse_email_request("action:[fax] to:[a] body:[b]").err().unwrap();
    assert_eq!((e.output.as_str(), e.reason.as_str()), ("Error: Unrecognized action in email tool.", "Bad Action"));
    let e = parse_email_request("to:[a@b.c]").err().unwrap();
    assert_eq!((e.output.as_str(), e.reason.as_str()), ("Error: Missing 'to:' or 'body:' fields.", "Missing params"));
    let s = smtp_settings("me".to_string(), "pw".to_string(), None, Some("465".to_string())).unwrap();
    assert_eq!((s.host.as_str(), s.port, s.implicit_tls), ("smtp.gmail.com", 465, true));
    let s = smtp_settings("me".to_string(), "pw".to_string(), Some("mail.x".to_string()), Some("nope".to_string())).unwrap();
    assert_eq!((s.host.as_str(), s.port, s.implicit_tls), ("mail.x", 587, false));
    let e = smtp_settings(String::new(), "pw".to_string(), None, None).err().unwrap();
    assert_eq!(e.reason, "No Credentials");
    assert_eq!(sender_mailbox("me@x.org"), "Apis <me@x.org>");
}

#[test]
fn download_requests() {
    match parse_download_request("url:[ https://x.org/f.zip ]").unwrap() {
        DownloadCommand::Fetch { url } => assert_eq!(url, "https://x.org/f.zip"),
        _ => panic!("expected a fetch"),
    }
    match parse_download_request("action:[status] file:[f.zip]").unwrap() {
        DownloadCommand::Status { file } => assert_eq!(file, "f.zip"),
        _ => panic!("expected a status"),
    }
    let e = parse_download_request("action:[status]").err().unwrap();
    assert_eq!((e.output.as_str(), e.reason.as_str()), ("Error: Missing file:[filename] for status check.", "Missing filename"));
    let e = parse_download_request("grab it").err().unwrap();
    assert_eq!((e.output.as_str(), e.reason.as_str()), ("Error: Missing url:[...] in description.", "Missing URL"));
    assert!(fetch_in_background(Some(26_214_401)));
    assert!(!fetch_in_background(Some(26_214_400)));
    assert!(!fetch_in_background(None));
    assert_eq!(
        file_links("http://h:1", "f.zip", ""),
        ("http://h:1/files/f.zip".to_string(), "http://h:1/files/".to_string())
    );
    assert_eq!(
        file_links("http://h:1", "f.zip", "t"),
        ("http://h:1/files/f.zip?token=t".to_string(), "http://h:1/files/?token=t".to_string())
    );
    assert!(download_done_text("/d/f.zip", "L1", "L2").contains("[ATTACH_FILE](/d/f.zip)"));
}
