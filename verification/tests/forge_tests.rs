use hive_agent::opencode::{opencode_config, OPENCODE_PORT};
use hive_agent::tool_forge::{checker_failure, create_syntax_error, dry_run_report, edit_syntax_error, forged_run_report, interpreter, syntax_checker_flags, tags_to_json, last_value_per_key, unknown_forge_action_text, ForgeRegistry, ForgedRun, SyntaxCheck, INVALID_LANGUAGE_TEXT, INVALID_NAME_TEXT};
use std::collections::HashMap;

#[test]
fn test_tags_to_json() {
    let input = "city:[London] units:[metric]";
    let json = tags_to_json(input);
    let parsed: HashMap<String, String> = serde_json::from_str(&json).unwrap();
    assert_eq!(parsed.get("city"), Some(&"London".to_string()));
    assert_eq!(parsed.get("units"), Some(&"metric".to_string()));
}

#[test]
fn tags_to_json_keeps_the_raw_description() {
    let input = "city:[Paris]";
    let json = tags_to_json(input);
    let parsed: HashMap<String, String> = serde_json::from_str(&json).unwrap();
    assert_eq!(parsed.get("raw_description"), Some(&input.to_string()));
    assert_eq!(parsed.len(), 2);
}

#[test]
fn test_generate_config() {
    let config = opencode_config("http://localhost:11434");
    let parsed: serde_json::Value = serde_json::from_str(&config).unwrap();
    assert_eq!(parsed["enabled_providers"][0].as_str(), Some("ollama"));
    assert_eq!(parsed["server"]["port"].as_u64(), Some(OPENCODE_PORT as u64));
}

#[test]
fn generated_config_points_at_the_model_server() {
    let config = opencode_config("http://gpu-box:11434");
    let parsed: serde_json::Value = serde_json::from_str(&config).unwrap();
    assert_eq!(
        parsed["provider"]["ollama"]["options"]["baseURL"].as_str(),
        Some("http://gpu-box:11434/v1")
    );
    assert_eq!(parsed["server"]["hostname"].as_str(), Some("127.0.0.1"));
    assert_eq!(parsed["permission"]["bash"].as_str(), Some("allow"));
}

fn forge_with_test_tool() -> ForgeRegistry {
    let mut forge = ForgeRegistry::new();
    let file = forge.plan_create("test_tool", "python").unwrap();
    assert_eq!(file, "test_tool.py");
    forge.insert_tool(
        "test_tool".to_string(),
        "A test tool".to_string(),
        "python".to_string(),
        file,
        "test".to_string(),
        1000,
    );
    forge
}

#[test]
fn forge_create_list_edit_toggle_delete() {
    let mut forge = forge_with_test_tool();
    assert!(forge.list_tools().contains("test_tool"));
    let tool = forge.get_tool("test_tool").unwrap();
    assert_eq!(tool.version, 1);
    assert!(tool.enabled);

    assert!(forge.bump_version("test_tool", 2000).is_ok());
    let tool = forge.get_tool("test_tool").unwrap();
    assert_eq!(tool.version, 2);
    assert_eq!(tool.created_at_ms, 2000);

    forge.set_enabled("test_tool", false).unwrap();
    assert!(forge.get_enabled_tools().is_empty());
    forge.set_enabled("test_tool", true).unwrap();
    assert_eq!(forge.get_enabled_tools().len(), 1);

    let (msg, file) = forge.delete_tool("test_tool").unwrap();
    assert!(msg.contains("deleted"));
    assert_eq!(file, "test_tool.py");
    assert!(forge.get_tool("test_tool").is_none());
    assert_eq!(forge.list_tools(), "No forged tools.");
}

#[test]
fn forge_refuses_bad_requests() {
    let forge = forge_with_test_tool();
    assert_eq!(forge.plan_create("bad name", "python"), Err(INVALID_NAME_TEXT.to_string()));
    assert_eq!(forge.plan_create("ok_name", "ruby"), Err(INVALID_LANGUAGE_TEXT.to_string()));
    assert_eq!(
        forge.plan_create("test_tool", "bash"),
        Err("Tool 'test_tool' already exists. Use edit to update it.".to_string())
    );
    assert_eq!(forge.plan_create("shell_tool", "bash"), Ok("shell_tool.sh".to_string()));
}

#[test]
fn forge_reports_unknown_tools() {
    let mut forge = ForgeRegistry::new();
    assert!(forge.bump_version("ghost", 1).is_err());
    assert!(forge.set_enabled("ghost", true).is_err());
    assert!(forge.delete_tool("ghost").is_err());
}

#[test]
fn forged_run_reports() {
    let ok = ForgedRun::Exited { success: true, status: "exit status: 0".into(), stdout: "sunny".into(), stderr: String::new() };
    let (text, reason) = forged_run_report("weather_check", 60, &ok);
    assert_eq!(text, "--- WEATHER_CHECK OUTPUT ---\nsunny");
    assert!(reason.is_none());
    let warn = ForgedRun::Exited { success: true, status: "exit status: 0".into(), stdout: "x".into(), stderr: "w".into() };
    assert_eq!(forged_run_report("t", 60, &warn).0, "--- T OUTPUT ---\nx\n[stderr] w");
    let bad = ForgedRun::Exited { success: false, status: "exit status: 2".into(), stdout: "o".into(), stderr: "e".into() };
    let (text, reason) = forged_run_report("t", 60, &bad);
    assert_eq!(text, "--- T FAILED (exit: exit status: 2) ---\no\ne");
    assert_eq!(reason.as_deref(), Some("Non-zero exit"));
    let (text, reason) = forged_run_report("t", 60, &ForgedRun::Failed { message: "Failed to spawn: nope".into() });
    assert_eq!(text, "Failed to execute forged tool: Failed to spawn: nope");
    assert_eq!(reason.as_deref(), Some("Failed to spawn: nope"));
    let (text, reason) = forged_run_report("t", 45, &ForgedRun::TimedOut);
    assert_eq!(text, "Forged tool 't' timed out after 45s. Process killed.");
    assert_eq!(reason.as_deref(), Some("Timeout"));
}

#[test]
fn syntax_check_answers() {
    assert_eq!(interpreter("python"), "python3");
    assert_eq!(interpreter("bash"), "bash");
    assert_eq!(syntax_checker_flags("python"), vec!["-m", "py_compile"]);
    assert_eq!(syntax_checker_flags("bash"), vec!["-n"]);
    assert_eq!(create_syntax_error("python", "line 1"), "Syntax Error in PYTHON code:\nline 1");
    assert_eq!(edit_syntax_error("oops"), "Syntax Error after edit:\noops");
    assert_eq!(checker_failure("bash", "not found"), "Failed to run syntax checker (bash): not found");
    let ok = SyntaxCheck::Passed { stdout: "a".into(), stderr: "b".into() };
    assert_eq!(dry_run_report("t", "python", &ok), "✅ Dry Run Syntax OK for t (python).\nOutputs:\na\nb");
    let bad = SyntaxCheck::Refused { stderr: "bad".into() };
    assert_eq!(dry_run_report("t", "bash", &bad), "❌ Syntax Error in BASH:\nbad");
    let gone = SyntaxCheck::CheckerFailed { message: "missing".into() };
    assert_eq!(dry_run_report("t", "python", &gone), "Failed to run syntax checker (python3): missing");
    assert_eq!(
        unknown_forge_action_text("fly"),
        "Unknown action 'fly'. Available: create, test, edit, enable, disable, delete, list"
    );
}

#[test]
fn repeated_tag_keeps_its_last_value() {
    let json = tags_to_json("city:[London] city:[Paris] units:[metric]");
    let parsed: HashMap<String, String> = serde_json::from_str(&json).unwrap();
    assert_eq!(parsed.get("city"), Some(&"Paris".to_string()));
    assert_eq!(parsed.len(), 3);
    let kept = last_value_per_key(vec![
        ("a".into(), "1".into()),
        ("b".into(), "2".into()),
        ("a".into(), "3".into()),
    ]);
    assert_eq!(kept, vec![("a".to_string(), "3".to_string()), ("b".to_string(), "2".to_string())]);
}
