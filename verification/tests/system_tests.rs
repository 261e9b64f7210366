use hive_agent::file_reader::{parse_read_request, path_denied, read_miss, read_page, search_file_name, ReadMiss};
use hive_agent::file_system::{apply_patch, fs_outcome_text, parse_fs_command, FsCommand, FsOutcome, PATCH_NOT_FOUND_TEXT};
use hive_agent::process::{
    daemon_log_path, daemon_shell_line, execute_report, log_report, log_tail, parse_process_command,
    record_daemon, record_kill, unknown_action_text, DaemonTable, ProcessCommand, ProcessOutcome,
    INVALID_PID_TEXT,
};

#[test]
fn process_requests() {
    match parse_process_command("command:[ls -la]").unwrap() {
        ProcessCommand::Execute { command } => assert_eq!(command, "ls -la"),
        _ => panic!("expected execute"),
    }
    let e = parse_process_command("action:[daemon]").err().unwrap();
    assert_eq!((e.output.as_str(), e.reason.as_str()), ("Error: Missing command:[...]", "Missing params"));
    match parse_process_command("action:[read] pid:[42] lines:[5]").unwrap() {
        ProcessCommand::Read { pid, lines } => assert_eq!((pid, lines), (Some(42), 5)),
        _ => panic!("expected read"),
    }
    match parse_process_command("action:[read] pid:[42]").unwrap() {
        ProcessCommand::Read { lines, .. } => assert_eq!(lines, 100),
        _ => panic!("expected read"),
    }
    match parse_process_command("action:[kill] pid:[abc]").unwrap() {
        ProcessCommand::Kill { pid } => assert_eq!(pid, None),
        _ => panic!("expected kill"),
    }
    let e = parse_process_command("action:[read]").err().unwrap();
    assert_eq!(e.output, "Error: Missing pid:[...]");
    match parse_process_command("action:[fly]").unwrap() {
        ProcessCommand::Unknown { action } => assert_eq!(action, "fly"),
        _ => panic!("expected unknown"),
    }
}

#[test]
fn process_reports() {
    let ok = ProcessOutcome::Exited {
        success: true,
        status: "exit status: 0".to_string(),
        stdout: "hi".to_string(),
        stderr: String::new(),
    };
    assert_eq!(execute_report(&ok), "Command Succeeded.\nSTDOUT:\nhi");
    let bad = ProcessOutcome::Exited {
        success: false,
        status: "exit status: 1".to_string(),
        stdout: "o".to_string(),
        stderr: "e".to_string(),
    };
    assert_eq!(execute_report(&bad), "Command Failed (exit status: 1).\nSTDOUT:\no\nSTDERR:\ne");
    assert_eq!(
        execute_report(&ProcessOutcome::TimedOut),
        "Execution Timeout: Process exceeded 30 seconds and was terminated."
    );
    assert_eq!(daemon_log_path(1700000000), "memory/daemons/daemon_1700000000.log");
    assert_eq!(daemon_log_path(-5), "memory/daemons/daemon_-5.log");
    assert_eq!(daemon_shell_line("sleep 5", "x.log"), "nohup sleep 5 > x.log 2>&1 & echo $!");
    assert_eq!(log_tail("a\r\nb\nc\n", 2), "b\nc");
    assert_eq!(log_tail("a\nb", 10), "a\nb");
}

#[test]
fn daemon_table_lifecycle() {
    let mut table = DaemonTable::new();
    assert_eq!(
        record_daemon(&mut table, "sleep 5", "x.log", "1234\n"),
        "Daemon started successfully.\nPID: 1234\nCommand: sleep 5\nLog File: x.log"
    );
    assert_eq!(table.get(1234), Some(("sleep 5".to_string(), "x.log".to_string())));
    assert_eq!(
        record_daemon(&mut table, "c", "l", "oops"),
        "Failed to parse PID from background spawn: oops"
    );
    record_daemon(&mut table, "tail -f", "y.log", "99");
    let mut pids = table.pids();
    pids.sort();
    assert_eq!(pids, vec![99, 1234]);
    assert_eq!(
        log_report(1234, table.get(1234), Some("a\nb\nc\n".to_string()), 2),
        "--- Daemon Logs PID 1234 (sleep 5) ---\nb\nc"
    );
    assert_eq!(
        log_report(1234, table.get(1234), None, 2),
        "Error: Log file x.log not found or cannot be read."
    );
    assert_eq!(log_report(7, table.get(7), None, 2), "Error: PID 7 is not managed by the HIVE Process Manager.");
    let alive: Vec<bool> = pids.iter().map(|&p| p == 99).collect();
    assert_eq!(
        table.prune_and_list(&pids, &alive),
        "--- Active HIVE Daemons ---\nPID: 99 | Command: tail -f | Log: y.log"
    );
    assert_eq!(table.get(1234), None);
    assert_eq!(record_kill(&mut table, 99), "Force killed Daemon PID 99.");
    assert_eq!(table.get(99), None);
    assert_eq!(table.prune_and_list(&vec![], &vec![]), "No active daemons managed by HIVE.");
    record_daemon(&mut table, "a", "a.log", "1");
    record_daemon(&mut table, "b", "b.log", "2");
    assert_eq!(
        table.prune_and_list(&vec![2, 1], &vec![true, true]),
        "--- Active HIVE Daemons ---\nPID: 2 | Command: b | Log: b.log\nPID: 1 | Command: a | Log: a.log"
    );
}

#[test]
fn file_system_requests() {
    let (path, cmd) = parse_fs_command("action:[write] path:[notes/a.txt] content:[hello [x] world]").unwrap();
    assert_eq!(path, "notes/a.txt");
    match cmd {
        FsCommand::Write { content } => assert_eq!(content, "hello [x] world"),
        _ => panic!("expected write"),
    }
    let e = parse_fs_command("path:[a.txt]").err().unwrap();
    assert_eq!((e.output.as_str(), e.reason.as_str()), ("Error: Missing action:[...] or path:[...]", "Invalid Args"));
    let e = parse_fs_command("action:[write] path:[Dockerfile] content:[x]").err().unwrap();
    assert!(e.output.starts_with("CONTAINMENT VIOLATION: '"));
    assert_eq!(e.reason, "Containment Boundary");
    let e = parse_fs_command("action:[patch] path:[a.txt]").err().unwrap();
    assert_eq!(e.output, "Error: Missing find:[...] payload for patch.");
    assert_eq!(e.reason, e.output);
    let e = parse_fs_command("action:[move] path:[a.txt]").err().unwrap();
    assert_eq!(e.output, "Unknown action: move");
    match parse_fs_command("action:[patch] path:[a.txt] find:[x = [1]] replace:[x = [2]]").unwrap().1 {
        FsCommand::Patch { find, replace } => assert_eq!((find.as_str(), replace.as_str()), ("x = [1]", "x = [2]")),
        _ => panic!("expected patch"),
    }
    assert!(matches!(parse_fs_command("action:[delete] path:[old.txt]").unwrap().1, FsCommand::Delete));
}

#[test]
fn patches() {
    assert_eq!(apply_patch("one two one", "one", "1"), Ok("1 two one".to_string()));
    assert_eq!(apply_patch("one two", "three", "3"), Err(PATCH_NOT_FOUND_TEXT.to_string()));
    assert_eq!(apply_patch("keep me", "me", "me"), Ok("keep me".to_string()));
}

#[test]
fn read_requests() {
    let r = parse_read_request("name:[src/main.rs] start_line:[10] limit:[20]");
    assert_eq!((r.path.as_str(), r.start_line, r.limit), ("src/main.rs", 10, 20));
    let r = parse_read_request("read src/lib.rs please");
    assert_eq!((r.path.as_str(), r.start_line, r.limit), ("src/lib.rs", 1, 500));
    assert!(path_denied("../etc/passwd"));
    assert!(path_denied("/etc/passwd"));
    assert!(!path_denied("src/a.rs"));
}

#[test]
fn read_pages() {
    assert_eq!(
        read_page("l1\nl2\nl3\n", "/root/a.txt", "a.txt", 1, 2),
        "File: /root/a.txt\nLines: 1-2/3 (66% complete, 1 lines remaining)\n[BOOKMARK: Continue with codebase_read(name:[a.txt] start_line:[3] limit:[2])]\n[READING INCOMPLETE — you MUST continue reading before responding]\n\nl1\nl2"
    );
    assert_eq!(
        read_page("l1\nl2\nl3\n", "/root/a.txt", "a.txt", 3, 2),
        "File: /root/a.txt\nLines: 3-3/3 (100% complete)\n[DOCUMENT COMPLETE]\n\nl3"
    );
}

#[test]
fn process_refusal_texts() {
    assert_eq!(INVALID_PID_TEXT, "Invalid PID format.");
    assert_eq!(unknown_action_text("fly"), "Unknown action: fly. Valid actions: execute, daemon, list, read, kill.");
    match parse_process_command("action:[read] pid:[abc]").unwrap() {
        ProcessCommand::Read { pid, lines } => {
            assert!(pid.is_none());
            assert_eq!(lines, 100);
        }
        _ => panic!("expected read"),
    }
}

#[test]
fn fs_outcome_answers() {
    assert_eq!(fs_outcome_text(&FsOutcome::Wrote, "a.txt"), ("Successfully wrote to a.txt".to_string(), false));
    assert_eq!(fs_outcome_text(&FsOutcome::Appended, "a.txt").0, "Successfully appended to a.txt");
    assert_eq!(fs_outcome_text(&FsOutcome::DeletedFile, "a.txt").0, "Successfully deleted file a.txt");
    assert_eq!(fs_outcome_text(&FsOutcome::DeletedDirectory, "d").0, "Successfully deleted directory d");
    assert_eq!(fs_outcome_text(&FsOutcome::Absent, "gone").0, "Successfully verified gone does not exist");
    assert_eq!(fs_outcome_text(&FsOutcome::Patched, "a.rs").0, "Successfully patched file a.rs");
    let f = FsOutcome::Failed { step: "write", message: "denied".into() };
    assert_eq!(fs_outcome_text(&f, "a.txt"), ("Failed to write: denied".to_string(), true));
}

#[test]
fn read_miss_answers() {
    assert_eq!(search_file_name("src/agent/tool.rs"), "tool.rs");
    assert_eq!(search_file_name("main.rs"), "main.rs");
    assert_eq!(search_file_name(".."), "..");
    let (o, r) = read_miss("x/tool.rs", &ReadMiss::FoundUnreadable { found: "src/tool.rs".into() });
    assert_eq!(o, "Failed to read file: x/tool.rs (found at src/tool.rs but read failed)");
    assert_eq!(r, "Read failed");
    let (o, r) = read_miss("x/tool.rs", &ReadMiss::NotFound { file_name: "tool.rs".into() });
    assert_eq!(o, "Failed to read file: x/tool.rs (not found, also searched src/ for 'tool.rs')");
    assert_eq!(r, "Not found");
    let (o, r) = read_miss("x", &ReadMiss::SearchFailed);
    assert_eq!(o, "Failed to read file: x");
    assert_eq!(r, "Not found");
}
