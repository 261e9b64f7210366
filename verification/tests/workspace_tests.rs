use hive_agent::contributors::{contributor_lines, contributors_action, contributors_report, history_lines};
use hive_agent::file_writer::{parse_doc_request, render_target, DocCommand, RenderTarget, MISSING_USAGE_TEXT};
use hive_agent::models::Scope;
use hive_agent::opencode::{parse_opencode_command, reply_text, valid_project_name, OpenCodeCommand, ResponsePart};
use hive_agent::timeline::{
    parse_timeline_query, timeline_answer, timeline_target, SearchMode, TimelineFile, TimelineLine, TimelineTarget,
};
use hive_agent::turing_tool::{axis_window, parse_bounds, parse_turing_command, TuringCommand};

#[test]
fn turing_commands() {
    match parse_turing_command("action:move dx:1 dy:2 dz:3").unwrap() {
        TuringCommand::Move { dx, dy, dz } => assert_eq!((dx, dy, dz), (1, 2, 3)),
        _ => panic!("expected a move"),
    }
    match parse_turing_command("action:write format:text content:hello grid test").unwrap() {
        TuringCommand::Write { format, content } => {
            assert_eq!((format.as_str(), content.as_str()), ("text", "hello grid test"))
        }
        _ => panic!("expected a write"),
    }
    let e = parse_turing_command("action:write format:text").err().unwrap();
    assert_eq!((e.output.as_str(), e.reason.as_str()), ("Error: No content provided for write.", "Missing field"));
    match parse_turing_command("action:scan radius:5").unwrap() {
        TuringCommand::Scan { radius } => assert_eq!(radius, 5),
        _ => panic!("expected a scan"),
    }
    let e = parse_turing_command("action:invalid").err().unwrap();
    assert_eq!((e.output.as_str(), e.reason.as_str()), ("Unknown action: invalid", "Invalid command"));
    assert!(matches!(parse_turing_command("").unwrap(), TuringCommand::Read));
    match parse_turing_command("action:deploy_daemon interval:3").unwrap() {
        TuringCommand::DeployDaemon { interval_secs } => assert_eq!(interval_secs, 10),
        _ => panic!("expected a daemon"),
    }
    match parse_turing_command("action:pipeline cells:[(0,0,0),(1,0,0)]").unwrap() {
        TuringCommand::Pipeline { cells } => assert_eq!(cells, vec![(0, 0, 0), (1, 0, 0)]),
        _ => panic!("expected a pipeline"),
    }
    let e = parse_turing_command("action:label").err().unwrap();
    assert_eq!(e.output, "Error: No label name provided. Use 'name:[label_name]'.");
}

#[test]
fn turing_bounds() {
    let b: Vec<char> = "[0,10]".chars().collect();
    assert_eq!(parse_bounds(&b), Some((0, 10)));
    let b: Vec<char> = "[x,10]".chars().collect();
    assert_eq!(parse_bounds(&b), None);
    assert_eq!(axis_window(0, 100), (0, 20));
    assert_eq!(axis_window(5, 3), (5, 7));
}

#[test]
fn document_requests() {
    let e = parse_doc_request("action:[start]").err().unwrap();
    assert_eq!((e.output.as_str(), e.reason.as_str()), (MISSING_USAGE_TEXT, "Invalid Usage"));
    let r = parse_doc_request("action:[start] id:[d1] title:[Report]").unwrap();
    assert_eq!(r.doc_id, "d1");
    match r.command {
        DocCommand::Start { title, author, theme } => {
            assert_eq!((title.as_str(), author.as_str(), theme.as_str()), ("Report", "Apis", "professional"))
        }
        _ => panic!("expected a start"),
    }
    match parse_doc_request("action:[render] id:[d1] format:[HTML]").unwrap().command {
        DocCommand::Render { format } => {
            assert_eq!(format, "html");
            assert_eq!(render_target(&format), RenderTarget::Html);
        }
        _ => panic!("expected a render"),
    }
    let e = parse_doc_request("action:[add_section] id:[d1] heading:[Intro]").err().unwrap();
    assert_eq!(e.reason, "Missing Content");
    match parse_doc_request("action:[fold] id:[d1]").unwrap().command {
        DocCommand::Unknown { action } => assert_eq!(action, "fold"),
        _ => panic!("expected unknown"),
    }
    assert_eq!(render_target("pdf"), RenderTarget::Pdf);
    assert_eq!(render_target(""), RenderTarget::Pdf);
    assert_eq!(render_target("md"), RenderTarget::Markdown);
    assert_eq!(render_target("docx"), RenderTarget::Text);
}

#[test]
fn opencode_commands() {
    assert!(matches!(parse_opencode_command("").unwrap(), OpenCodeCommand::Status));
    match parse_opencode_command("action:[open] project:[site]").unwrap() {
        OpenCodeCommand::Open { project } => assert_eq!(project, "site"),
        _ => panic!("expected open"),
    }
    let e = parse_opencode_command("action:[prompt] message:[hi]").err().unwrap();
    assert_eq!((e.output.as_str(), e.reason.as_str()), ("Missing: session:[session_id]", "Missing session"));
    match parse_opencode_command("action:[prompt] session:[s1] message:[use [1, 2]]").unwrap() {
        OpenCodeCommand::Prompt { session, message, model } => {
            assert_eq!((session.as_str(), message.as_str()), ("s1", "use [1, 2]"));
            assert!(model.is_none());
        }
        _ => panic!("expected prompt"),
    }
    let e = parse_opencode_command("action:[zip]").err().unwrap();
    assert_eq!((e.output.as_str(), e.reason.as_str()), ("Missing: project:[name]", "Missing project name"));
    assert!(valid_project_name("site"));
    assert!(!valid_project_name("../site"));
    assert!(!valid_project_name("a/b"));
    assert!(!valid_project_name(""));
    let parts = vec![
        ResponsePart { kind: Some("step".to_string()), text: Some("thinking".to_string()) },
        ResponsePart { kind: Some("text".to_string()), text: Some("done".to_string()) },
    ];
    assert_eq!(reply_text(Some(&parts)), "--- OPENCODE RESPONSE ---\ndone");
    assert_eq!(reply_text(None), "--- OPENCODE RESPONSE ---\n[no text response]");
}

fn record(author: &str, content: &str) -> TimelineLine {
    TimelineLine {
        text: format!("{{\"author\":\"{}\",\"content\":\"{}\"}}", author, content),
        entry: Some((author.to_string(), content.to_string())),
    }
}

#[test]
fn timeline_searches() {
    let q = parse_timeline_query("query:[Rust Tips] limit:[3]");
    assert_eq!((q.mode, q.query.as_str(), q.limit, q.scope.as_str()), (SearchMode::AnyWord, "rust tips", 3, ""));
    let q = parse_timeline_query("action:[exact] query:[x]");
    assert_eq!(q.mode, SearchMode::Exact);
    let q = parse_timeline_query("");
    assert_eq!((q.mode, q.limit), (SearchMode::Browse, 50));
    let scope = Scope::Public { channel_id: "9".to_string(), user_id: "ada".to_string() };
    match timeline_target("", &scope) {
        TimelineTarget::Single { path } => assert_eq!(path, "memory/public_9/ada/timeline.jsonl"),
        _ => panic!("expected one timeline"),
    }
    match timeline_target("channel", &scope) {
        TimelineTarget::UsersIn { dir } => assert_eq!(dir, "memory/public_9"),
        _ => panic!("expected a channel"),
    }
    assert!(matches!(timeline_target("all_public", &scope), TimelineTarget::AllPublic));
    let files = vec![TimelineFile {
        label: "ada".to_string(),
        lines: Some(vec![record("ada", "I like rust"), record("bob", "tea time"), record("ada", "more Rust please")]),
    }];
    assert_eq!(
        timeline_answer(&files, SearchMode::AnyWord, "rust", 50),
        "Timeline Search Results for 'rust' (1 timeline(s) searched):\n\nada: I like rust\n\nada: more Rust please"
    );
    assert_eq!(
        timeline_answer(&files, SearchMode::AnyWord, "rust", 1),
        "Timeline Search Results for 'rust' (1 timeline(s) searched):\n\nada: more Rust please"
    );
    assert_eq!(
        timeline_answer(&files, SearchMode::Exact, "coffee", 5),
        "No matches found for 'coffee' across 1 timeline(s) searched."
    );
    assert_eq!(timeline_answer(&vec![], SearchMode::Browse, "", 5), "No timelines found for the requested scope.");
    let unread = vec![TimelineFile { label: "x".to_string(), lines: None }];
    assert_eq!(timeline_answer(&unread, SearchMode::Browse, "", 5), "No long-term timeline exists for this scope yet.");
}

#[test]
fn contributors_sections() {
    assert!(contributors_action("action:[info]").is_ok());
    assert!(contributors_action("").is_ok());
    let e = contributors_action("action:[dance]").err().unwrap();
    assert_eq!(e.output, "Unknown action 'dance'. Use action:[info] to get creator and contributor details.");
    let log = "2024-03-01 10:00:00 +0000|bbb|second\n2023-01-05 09:00:00 +0000|aaa|first\n\n";
    assert_eq!(
        history_lines(log),
        "- **First commit (by author date):** 2023-01-05 09:00:00 +0000 aaa first\n- **Latest commit (by author date):** 2024-03-01 10:00:00 +0000 bbb second\n- **Development span:** 2023-01-05 09:00:00 +0000 → 2024-03-01 10:00:00 +0000\n"
    );
    assert_eq!(contributor_lines("  12\tAda <a@x>\n\n 3\tBob <b@x>\n"), "- 12\tAda <a@x>\n- 3\tBob <b@x>\n");
    assert_eq!(contributor_lines("  "), "- No contributors found in git history.\n");
    let report = contributors_report(None, Some(" 42\n"), None);
    assert!(report.contains("Maria Smith"));
    assert!(report.contains("MettaMazza"));
    assert!(report.contains("- Commit history: unavailable\n- **Total commits:** 42\n"));
    assert!(report.ends_with("\n### All Contributors (from git shortlog)\n- Git shortlog unavailable.\n"));
}

#[test]
fn axis_window_near_the_top_of_the_range() {
    assert_eq!(axis_window(i32::MAX - 5, i32::MAX), (i32::MAX - 5, i32::MAX));
    assert_eq!(axis_window(3, 100), (3, 23));
    assert_eq!(axis_window(10, 4), (10, 16));
}
