use hive_agent::attachment::{attachment_text, attachment_url, check_attachment_url, fetch_failure, MAX_ATTACHMENT_BYTES};
use hive_agent::journal::{
    activity_summary, logs_report, parse_core_memory_command, reasoning_review, recent_activity, tokens_report,
    wants_summary, ActivityEntry, CoreMemoryCommand, TimelineRecord,
};
use hive_agent::memory_tools::{
    beliefs_reply, graph_search_reply, graph_stats_reply, parse_graph_command, parse_scratchpad_command,
    relation_stored_reply, scratchpad_changed, scratchpad_view, GraphCommand, ScratchpadCommand, RELATE_USAGE_TEXT,
};

const DAY_NS: i64 = 86_400_000_000_000;

fn entry(ts: Option<i64>, turns: u64, tools: &[&str], summary: Option<&str>) -> ActivityEntry {
    ActivityEntry {
        timestamp_ns: ts,
        turn_count: turns,
        tools: tools.iter().map(|t| t.to_string()).collect(),
        summary: summary.map(|s| s.to_string()),
    }
}

#[test]
fn attachment_links() {
    assert_eq!(attachment_url("url:[https://cdn.discordapp.com/a.txt]"), "https://cdn.discordapp.com/a.txt");
    assert_eq!(attachment_url("read this https://media.discordapp.net/b.log') now"), "https://media.discordapp.net/b.log");
    assert_eq!(attachment_url("read this ('https://media.discordapp.net/b.log') now"), "");
    assert_eq!(attachment_url("no link here"), "");
    let e = check_attachment_url("").unwrap_err();
    assert_eq!((e.output.as_str(), e.reason.as_str()), (
        "Error: No valid URL provided. Use url:[https://cdn.discordapp.com/...]",
        "Missing or invalid URL"
    ));
    let e = check_attachment_url("https://evil.example/x").unwrap_err();
    assert_eq!((e.output.as_str(), e.reason.as_str()), (
        "Access Denied: read_attachment only accepts Discord CDN URLs.",
        "Security: non-Discord URL"
    ));
    assert!(check_attachment_url("https://cdn.discordapp.com/x").is_ok());
}

#[test]
fn attachment_bodies() {
    assert_eq!(attachment_text("héllo".as_bytes()).unwrap(), "héllo");
    assert_eq!(
        attachment_text(&[0xff, 0xfe, 0x00]).unwrap(),
        "Binary file (3 bytes). Cannot display as text. The file was inspected in-memory but contains non-UTF8 binary data."
    );
    let big = vec![b'a'; MAX_ATTACHMENT_BYTES + 1];
    let e = attachment_text(&big).unwrap_err();
    assert_eq!(e.output, "Rejected: file is 10485761 bytes, exceeds 10MB safety limit.");
    assert_eq!(e.reason, "File too large");
    assert!(attachment_text(&vec![b'a'; MAX_ATTACHMENT_BYTES]).is_ok());
    let e = fetch_failure("timeout");
    assert_eq!(e.output, "Failed to fetch attachment: timeout. The CDN URL may have expired.");
}

#[test]
fn activity_log_views() {
    assert!(wants_summary("action:[summary]"));
    assert!(!wants_summary("action:[recent] count:[2]"));
    let log = "{\"a\":1}\n\n{\"a\":2}\n{\"a\":3}\n";
    assert_eq!(recent_activity(log, "count:[2]"), "{\"a\":2}\n{\"a\":3}");
    assert_eq!(recent_activity(log, ""), "{\"a\":1}\n{\"a\":2}\n{\"a\":3}");
    assert_eq!(recent_activity("\n \n", ""), "No autonomous activity recorded yet.");
}

#[test]
fn activity_summary_of_the_day() {
    let now = 10 * DAY_NS;
    let entries = vec![
        entry(Some(now - 2 * DAY_NS), 9, &["old_tool"], Some("too old")),
        entry(Some(now - 1000), 3, &["web_search", "read_logs"], Some("searched")),
        entry(None, 2, &["web_search", "deep_think"], None),
        entry(Some(now - DAY_NS), 1, &[], Some("edge of the day")),
    ];
    assert_eq!(
        activity_summary(&entries, now),
        "📊 **Autonomy Summary (Last 24h)**\n• Sessions: 3\n• Total turns used: 6\n• Tools exercised: web_search, read_logs, deep_think\n\n**Session Highlights:**\n1. searched\n2. edge of the day"
    );
    let stale = vec![entry(Some(now - 2 * DAY_NS), 1, &[], None)];
    assert_eq!(activity_summary(&stale, now), "No autonomous activity in the last 24 hours.");
}

#[test]
fn system_log_tail() {
    assert_eq!(
        logs_report(Ok("a\nb\nc\n".to_string()), "lines:[2]").unwrap(),
        "b\nc\n\n[LOGS COMPLETE (Tailed 2 lines)]"
    );
    assert_eq!(
        logs_report(Ok("a\nb".to_string()), "").unwrap(),
        "a\nb\n\n[LOGS COMPLETE (Tailed 2 lines)]"
    );
    assert_eq!(logs_report(Ok(String::new()), "").unwrap(), "Log file is empty.");
    let e = logs_report(Err("denied".to_string()), "").unwrap_err();
    assert_eq!((e.output.as_str(), e.reason.as_str()), ("Failed to read logs: denied", "denied"));
}

fn record(author: Option<&str>, content: Option<&str>) -> TimelineRecord {
    TimelineRecord { author_id: author.map(|s| s.to_string()), content: content.map(|s| s.to_string()) }
}

#[test]
fn reasoning_traces() {
    let records = vec![
        record(Some("internal"), Some("t1")),
        record(Some("user"), Some("hello")),
        record(Some("internal"), Some("t2")),
        record(Some("internal"), None),
        record(Some("internal"), Some("t3")),
    ];
    assert_eq!(
        reasoning_review(&records, "limit:[2]"),
        "--- REASONING TRACE 2 of 3 ---\nt2\n\n--- REASONING TRACE 3 of 3 ---\nt3\n\n"
    );
    assert_eq!(reasoning_review(&records, "turns_ago:[1]"), "--- REASONING TRACE 3 of 3 ---\nt3\n\n");
    assert_eq!(reasoning_review(&vec![], ""), "No reasoning traces found in the persistent timeline.");
}

#[test]
fn core_memory_reports() {
    let e = parse_core_memory_command("").unwrap_err();
    assert_eq!((e.output.as_str(), e.reason.as_str()), ("Error: Missing 'action:' field.", "Missing action field"));
    assert_eq!(parse_core_memory_command("action:[Tokens]").unwrap(), CoreMemoryCommand::Tokens);
    assert_eq!(parse_core_memory_command("action:[temporal]").unwrap(), CoreMemoryCommand::Temporal);
    let e = parse_core_memory_command("action:[dream]").unwrap_err();
    assert_eq!(e.output, "Unknown action 'dream'. Valid actions: temporal, tokens.");
    let pressure = |tokens: u64| format!("{:.2}", (tokens as f64 / 120_000.0) * 100.0);
    assert_eq!(
        tokens_report(0, 0, &pressure(0)),
        "[WORKING CONTEXT WINDOW REPORT]\nActive Messages in Window: 0\nEstimated Tokens Utilized: ~0\nContext Pressure: 0.00%\n\nIf pressure approaches 100%, older messages are being rolling-evicted to the persistent timeline."
    );
    assert!(tokens_report(4, 60000, &pressure(60000)).contains("Context Pressure: 50.00%"));
    assert!(tokens_report(4, 1000, &pressure(1000)).contains("Context Pressure: 0.83%"));
}

#[test]
fn scratchpad_requests() {
    let e = parse_scratchpad_command("content:[hello]").unwrap_err();
    assert_eq!(e.reason, "Missing action field");
    let e = parse_scratchpad_command("action:[foo] content:[hello]").unwrap_err();
    assert_eq!(e.reason, "Unknown action");
    assert_eq!(e.output, "Unknown action 'foo'. Valid actions: read, write, append, clear.");
    let e = parse_scratchpad_command("action:[write]").unwrap_err();
    assert_eq!((e.output.as_str(), e.reason.as_str()), ("Error: Missing 'content:' field for write action.", "Missing field"));
    let cmd = parse_scratchpad_command("action:[append] content:[... Goodbye!]").unwrap();
    match &cmd {
        ScratchpadCommand::Append { content } => assert_eq!(content, "... Goodbye!"),
        _ => panic!("expected an append"),
    }
    assert_eq!(scratchpad_changed(&cmd, Ok(())).unwrap(), "Scratchpad appended successfully.");
    let e = scratchpad_changed(&ScratchpadCommand::Clear, Err("disk".to_string())).unwrap_err();
    assert_eq!((e.output.as_str(), e.reason.as_str()), ("Failed to clear: disk", "disk"));
    assert!(matches!(parse_scratchpad_command("action:[READ]").unwrap(), ScratchpadCommand::Read));
    assert_eq!(scratchpad_view("  \n"), "Scratchpad is completely empty.");
    assert_eq!(scratchpad_view("Hello World... Goodbye!"), "[SCRATCHPAD CONTENTS]\n\nHello World... Goodbye!");
}

#[test]
fn graph_requests() {
    let e = parse_graph_command("").unwrap_err();
    assert_eq!(e.reason, "Missing action field");
    let e = parse_graph_command("action:[store] concept:[A]").unwrap_err();
    assert_eq!((e.output.as_str(), e.reason.as_str()), ("Error: Missing 'data:' field for store action.", "Missing field"));
    let e = parse_graph_command("action:[store] data:[B]").unwrap_err();
    assert_eq!(e.output, "Error: Missing 'concept:' field for store action.");
    match parse_graph_command("action:[store] concept:[Apple] data:[is red]").unwrap() {
        GraphCommand::Store { concept, data } => assert_eq!((concept.as_str(), data.as_str()), ("Apple", "is red")),
        _ => panic!("expected a store"),
    }
    match parse_graph_command("action:[beliefs] limit:[x]").unwrap() {
        GraphCommand::Beliefs { limit } => assert_eq!(limit, 10),
        _ => panic!("expected beliefs"),
    }
    let e = parse_graph_command("action:[relate] from:[Apple] to:[Fruit]").unwrap_err();
    assert_eq!((e.output.as_str(), e.reason.as_str()), (RELATE_USAGE_TEXT, "Missing fields"));
    assert_eq!(relation_stored_reply("Apple", "is_a", "Fruit"), "Relationship stored: 'Apple' --[is_a]--> 'Fruit'");
    assert_eq!(graph_search_reply("Apple", &vec![]), "No nodes found for concept 'Apple'.");
    assert_eq!(
        graph_search_reply("Apple", &vec!["red".to_string(), "sweet".to_string()]),
        "Synaptic Results for 'Apple':\nred\nsweet"
    );
    assert_eq!(beliefs_reply(&vec!["a".to_string(), "b".to_string()]), "Core System Beliefs:\n- a\n- b");
    assert_eq!(beliefs_reply(&vec![]), "No core beliefs firmly established in the graph yet.");
    assert_eq!(graph_stats_reply(3, 1), "Synaptic Graph Stats:\n- Nodes (concepts): 3\n- Edges (relationships): 1");
}
