use hive_agent::dispatch::{
    channel_target, channel_transcript, command_report, native_tool, plan_delegation,
    route_native_tool, swarm_report, wallet_secret, ChannelMessage, CommandOutcome, NativeTool, Route, Services,
    DEPTH_EXHAUSTED_TEXT, DUPLICATE_IMAGE_TEXT, OPENCODE_AUTONOMY_TEXT,
};
use hive_agent::models::Scope;
use hive_agent::sub_agent::{SpawnResult, SpawnStrategy, SubAgentResult, SubAgentStatus};

fn all_services() -> Services {
    Services { agent_manager: true, capabilities: true, goal_store: true, tool_forge: true, opencode_bridge: true }
}

fn user(u: &str) -> Scope {
    Scope::Private { user_id: u.to_string() }
}

#[test]
fn native_tool_names() {
    assert_eq!(native_tool("web_search"), Some(NativeTool::WebSearch));
    assert_eq!(native_tool("researcher"), Some(NativeTool::WebSearch));
    assert_eq!(native_tool("research_swarm"), Some(NativeTool::Delegate));
    assert_eq!(native_tool("mute_user"), None);
    assert_eq!(native_tool("nonsense"), None);
}

#[test]
fn second_image_in_a_turn_is_refused() {
    let r = route_native_tool("generate_image", "earlier [ATTACH_IMAGE](a.png)", &user("u"), all_services());
    match r {
        Route::Refuse { output, reason } => {
            assert_eq!(output, DUPLICATE_IMAGE_TEXT);
            assert_eq!(reason, "Blocked Duplicate Render");
        }
        _ => panic!("expected a refusal"),
    }
    let r = route_native_tool("generate_image", "nothing yet", &user("u"), all_services());
    assert!(matches!(r, Route::Run(NativeTool::GenerateImage)));
}

#[test]
fn autonomy_cannot_run_opencode_or_moderation() {
    let r = route_native_tool("opencode", "", &user("apis_autonomy"), all_services());
    match r {
        Route::Refuse { output, reason } => {
            assert_eq!(output, OPENCODE_AUTONOMY_TEXT);
            assert_eq!(reason, "Blocked in Autonomy");
        }
        _ => panic!("expected a refusal"),
    }
    let r = route_native_tool("mute_user", "", &user("apis_autonomy"), all_services());
    assert!(matches!(r, Route::Refuse { .. }));
    let r = route_native_tool("mute_user", "", &user("alice"), all_services());
    assert!(matches!(r, Route::Run(NativeTool::Moderation)));
}

#[test]
fn missing_services_refuse_their_tools() {
    let none = Services { agent_manager: false, capabilities: false, goal_store: false, tool_forge: false, opencode_bridge: false };
    match route_native_tool("manage_goals", "", &user("u"), none) {
        Route::Refuse { output, reason } => {
            assert_eq!(output, "Goal system not initialized.");
            assert_eq!(reason, "No GoalStore");
        }
        _ => panic!("expected a refusal"),
    }
    assert!(matches!(route_native_tool("tool_forge", "", &user("u"), none), Route::Refuse { .. }));
    assert!(matches!(route_native_tool("opencode", "", &user("u"), none), Route::Refuse { .. }));
    assert!(matches!(route_native_tool("delegate", "", &user("u"), none), Route::Refuse { .. }));
    assert!(matches!(route_native_tool("my_script", "", &user("u"), none), Route::Unhandled));
    assert!(matches!(route_native_tool("my_script", "", &user("u"), all_services()), Route::Run(NativeTool::Forged)));
}

#[test]
fn delegation_splits_tasks_and_reads_strategy() {
    let plan = plan_delegation("tasks:[a | b |  | c] strategy:[Pipeline]", "").unwrap();
    assert_eq!(plan.tasks, vec!["a".to_string(), "b".to_string(), "c".to_string()]);
    assert_eq!(plan.strategy, SpawnStrategy::Pipeline);
    assert_eq!(plan.depth, 0);
    let plan = plan_delegation("goal:[write a poem]", "SWARM_DEPTH:[1]").unwrap();
    assert_eq!(plan.tasks, vec!["write a poem".to_string()]);
    assert_eq!(plan.strategy, SpawnStrategy::Parallel);
    assert_eq!(plan.depth, 1);
}

#[test]
fn delegation_depth_is_bounded() {
    let e = plan_delegation("tasks:[a|b]", "SWARM_DEPTH:[2]").err().unwrap();
    assert_eq!(e.output, DEPTH_EXHAUSTED_TEXT);
    assert_eq!(e.reason, "Depth Limit Reached");
    let e = plan_delegation("tasks:[ | ]", "").err().unwrap();
    assert_eq!(e.output, "Error: No tasks provided for delegation.");
    assert_eq!(e.reason, "No tasks");
}

#[test]
fn channel_target_finds_an_id() {
    assert_eq!(channel_target("channel_id:[42]").unwrap(), "42");
    assert_eq!(channel_target("read 123456789012 please").unwrap(), "123456789012");
    let e = channel_target("read the general channel").err().unwrap();
    assert_eq!(e.output, "Error: No valid channel ID found. Provide a numeric Discord channel ID.");
    assert_eq!(e.reason, "Missing channel ID");
}

#[test]
fn transcript_is_oldest_first() {
    let newest = ChannelMessage {
        author: Some("bob".to_string()),
        content: Some("second".to_string()),
        timestamp: Some("2024-01-01T10:00:05.000Z".to_string()),
    };
    let oldest = ChannelMessage { author: None, content: Some("first".to_string()), timestamp: None };
    let t = channel_transcript("7", &vec![newest, oldest]);
    assert_eq!(t, "--- Channel 7 — Last 2 messages ---\n\n[] unknown: first\n[10:00:05] bob: second\n");
    assert_eq!(channel_transcript("7", &vec![]), "Channel exists but has no messages.");
}

#[test]
fn command_reports() {
    let ok = CommandOutcome::Exited { success: true, stdout: "  hi \n".to_string(), stderr: String::new() };
    assert_eq!(command_report(&ok), ("hi".to_string(), None));
    let quiet = CommandOutcome::Exited { success: true, stdout: " ".to_string(), stderr: String::new() };
    assert_eq!(command_report(&quiet).0, "Command succeeded with no output.");
    let bad = CommandOutcome::Exited { success: false, stdout: "o".to_string(), stderr: "e".to_string() };
    let m = "Command Failed.\nSTDOUT:\no\nSTDERR:\ne".to_string();
    assert_eq!(command_report(&bad), (m.clone(), Some(m)));
    assert_eq!(command_report(&CommandOutcome::TimedOut).0, "Execution Timeout: Process exceeded 15 seconds.");
    assert_eq!(
        command_report(&CommandOutcome::SpawnFailed { message: "no sh".to_string() }).1,
        Some("Failed to spawn: no sh".to_string())
    );
}

#[test]
fn wallet_secret_is_a_sha256_digest() {
    assert_eq!(
        wallet_secret(None, None),
        "c3e06fda60e2424e92b2cc36dd7d5fdbeb09581a3ce66b3368b775d904255aef"
    );
    assert_eq!(
        wallet_secret(None, Some("tok".to_string())),
        "1a7674eb4ee78df7e1ac439a93c3fa8e3c945784d4dec9fd8e3011738b2f1d62"
    );
    assert_eq!(wallet_secret(Some("set".to_string()), Some("tok".to_string())), "set");
}

#[test]
fn swarm_report_shows_the_float_durations() {
    let secs = |ms: u64| format!("{:.1}", ms as f64 / 1000.0);
    let results = vec![
        SubAgentResult {
            agent_id: "a1".into(), output: "done".into(), status: SubAgentStatus::Completed,
            tools_called: vec![], duration_ms: 1050, turns_used: 2,
        },
        SubAgentResult {
            agent_id: "a2".into(), output: "oops".into(), status: SubAgentStatus::TimedOut,
            tools_called: vec![], duration_ms: 250, turns_used: 1,
        },
    ];
    let agent_secs: Vec<String> = results.iter().map(|r| secs(r.duration_ms)).collect();
    let r = SpawnResult { results, synthesis: None, total_duration_ms: 1050, successful: 1, total_agents: 2 };
    let (text, ok) = swarm_report(&r, &secs(r.total_duration_ms), &agent_secs);
    assert!(ok);
    assert_eq!(
        text,
        "Swarm complete: 1/2 agents succeeded in 1.1s\n\n✅ **[a1]** (2 turns, 1.1s):\ndone\n\n⏱️ **[a2]** (1 turns, 0.2s):\noops\n\n"
    );
}
