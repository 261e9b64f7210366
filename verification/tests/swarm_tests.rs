use hive_agent::dispatch::{task_handler, Route, TaskHandler};
use hive_agent::ledger::{
    duplicate_send, earn_reason, gallery_more_note, is_system_wallet, leaderboard_head, medal, parse_card_command,
    parse_credits_command, parse_wallet_command, rarity_mark, CardCommand, CreditsCommand, WalletCommand,
    EARN_DENIED_TEXT, WALLET_DENIED_TEXT,
};
use hive_agent::lessons::{lesson_stored_reply, parse_store_lesson};
use hive_agent::models::Scope;
use hive_agent::scheduler::{AgentTask, PlanScheduler, WaveStep};
use hive_agent::sub_agent::{
    completed_result, cut_result, fan_in, output_display, panicked_result, pipeline_block, security_note, sub_agent_prompt,
    swarm_pass_context, tool_result_note, turn_header, FanIn, RunAction, RunCut, RunEvent, RunState, SpawnStrategy, ToolOutcome, SubAgentSpec, SubAgentStatus,
};
use hive_agent::synthesis::{
    deep_think_question_check, drone_synthesis_prompt, fallback_merge, lifetime_prompt, stored_narrative,
    turn_summary_prompt,
};
use hive_agent::voice::{voice_failure, voice_reply, voice_text, VoiceStage};

fn task(id: &str, deps: &[&str]) -> AgentTask {
    AgentTask {
        task_id: id.to_string(),
        tool_type: "web_search".to_string(),
        description: String::new(),
        depends_on: deps.iter().map(|d| d.to_string()).collect(),
    }
}

fn ids(ts: &Vec<AgentTask>) -> Vec<String> {
    ts.iter().map(|t| t.task_id.clone()).collect()
}

#[test]
fn test_sub_agent_spec_defaults() {
    let spec = SubAgentSpec::default();
    assert_eq!(spec.max_turns, 8);
    assert_eq!(spec.timeout_secs, 300);
}

#[test]
fn test_spawn_strategy_from_str() {
    assert_eq!(SpawnStrategy::from_str("parallel"), SpawnStrategy::Parallel);
    assert_eq!(SpawnStrategy::from_str("pipeline"), SpawnStrategy::Pipeline);
    assert_eq!(SpawnStrategy::from_str("competitive"), SpawnStrategy::Competitive);
    assert_eq!(SpawnStrategy::from_str("fan_out_fan_in"), SpawnStrategy::FanOutFanIn);
    assert_eq!(SpawnStrategy::from_str("unknown"), SpawnStrategy::Parallel);
    assert_eq!(SpawnStrategy::from_str("PIPELINE"), SpawnStrategy::Pipeline);
}

#[test]
fn plans_run_in_dependency_waves() {
    let mut s = PlanScheduler::new(vec![task("a", &[]), task("b", &["a"]), task("c", &[])]);
    match s.next_wave() {
        WaveStep::Run(v) => assert_eq!(ids(&v), vec!["a", "c"]),
        _ => panic!("expected a wave"),
    }
    s.record_completed("a".to_string());
    s.record_completed("c".to_string());
    match s.next_wave() {
        WaveStep::Run(v) => assert_eq!(ids(&v), vec!["b"]),
        _ => panic!("expected a wave"),
    }
    assert!(matches!(s.next_wave(), WaveStep::Finished));
}

#[test]
fn unsatisfiable_dependencies_are_forced() {
    let mut s = PlanScheduler::new(vec![task("x", &["ghost"])]);
    match s.next_wave() {
        WaveStep::ForceRun(v) => assert_eq!(ids(&v), vec!["x"]),
        _ => panic!("expected a forced wave"),
    }
    assert!(matches!(s.next_wave(), WaveStep::Finished));
}

#[test]
fn sub_agent_transcript() {
    let p = sub_agent_prompt("swarm-1", "find x", Some((1, -2, 3)));
    assert!(p.starts_with("You are a Sub-Agent within the HIVE swarm. Your ID is 'swarm-1'.\n"));
    assert!(p.contains("coordinates [1, -2, 3]."));
    assert!(p.ends_with("\nYOUR TASK:\nfind x\n"));
    let q = sub_agent_prompt("swarm-1", "find x", None);
    assert!(q.contains("5. If a tool fails, note it and work around it.\n\nYOUR TASK:\nfind x\n"));
    assert_eq!(pipeline_block("prev"), "[CONTEXT FROM PREVIOUS AGENT]\nprev\n\n");
    assert_eq!(turn_header(2), "\n\nSub-Agent ReAct Turn 2\n");
    assert_eq!(
        security_note(1, "t9", "system_recompile"),
        "Turn 1 - Task t9: SECURITY VIOLATION — system_recompile requires admin privileges.\n\n"
    );
    assert_eq!(swarm_pass_context(1, "task"), "[SWARM_DEPTH:1] task");
    assert_eq!(tool_result_note(3, "t1", "Success", "ok"), "Turn 3 - Task t1: Success\nOutput: ok\n\n");
    let long = "a".repeat(16005);
    assert_eq!(output_display(&long), format!("{}...[truncated, 16005 bytes total]", "a".repeat(16000)));
    assert_eq!(output_display("short"), "short");
}

#[test]
fn sub_agent_run_cuts() {
    let (r, fatal) = cut_result(RunCut::MaxTurns, "pipe-1", 2, 300, vec![], 10, 2);
    assert_eq!(r.output, "[Sub-agent hit max turns (2). Partial context available.]");
    assert_eq!(r.status, SubAgentStatus::Failed("Max turns exceeded".to_string()));
    assert_eq!(r.turns_used, 2);
    assert_eq!(fatal, "[SWARM FATAL] Agent 'pipe-1' hit max turns (2).");
    let (r, fatal) = cut_result(RunCut::TimedOut, "racer-3", 8, 300, vec!["t".to_string()], 5, 4);
    assert_eq!(r.output, "Sub-agent timed out after 300 seconds.");
    assert_eq!(r.status, SubAgentStatus::TimedOut);
    assert_eq!(r.tools_called, vec!["t".to_string()]);
    assert_eq!(fatal, "[SWARM FATAL] Agent 'racer-3' Timed Out after 300s.");
    let p = panicked_result("boom");
    assert_eq!((p.agent_id.as_str(), p.output.as_str()), ("panicked", "Agent panicked: boom"));
    assert!(matches!(fan_in(&vec![]), FanIn::Nothing));
    assert!(matches!(fan_in(&vec!["x".to_string()]), FanIn::One(ref s) if s == "x"));
    assert!(matches!(fan_in(&vec!["x".to_string(), "y".to_string()]), FanIn::Merge));
}

#[test]
fn task_handlers() {
    assert!(matches!(task_handler(&Route::Unhandled, true, "t"), TaskHandler::Template));
    match task_handler(&Route::Unhandled, false, "ghost_tool") {
        TaskHandler::Missing(m) => assert_eq!(m, "Tool type 'ghost_tool' not found"),
        _ => panic!("expected a missing tool"),
    }
    let refused = Route::Refuse { output: "no".to_string(), reason: "r".to_string() };
    assert!(matches!(task_handler(&refused, false, "t"), TaskHandler::Native));
}

#[test]
fn summaries_and_prompts() {
    assert_eq!(
        fallback_merge(&vec!["A".to_string(), "B".to_string()]),
        "## Combined Agent Results\n\n### Agent 1\nA\n\n### Agent 2\nB\n\n"
    );
    let p = drone_synthesis_prompt("  Summarize  ", "ctx");
    assert!(p.ends_with("[SYNTHESIS INSTRUCTION]: Summarize\n\n[DRONE OUTPUTS TO SYNTHESISE]:\nctx"));
    let lines: Vec<String> = (0..150).map(|i| format!("l{}", i)).collect();
    let p = turn_summary_prompt(&lines.join("\n"));
    assert!(p.contains("(JSONL):\nl50\n"));
    assert!(!p.contains("l49\n"));
    assert!(p.contains("l149\n\nBased on these events"));
    let l = lifetime_prompt(None, Some("day"));
    assert!(l.contains("[PREVIOUS LIFETIME FRAGMENT]: No previous lifetime summary exists. This is the origin.\n[RECENT 24-HOUR FRAGMENT]: day\n"));
    assert_eq!(stored_narrative("  story \n"), "story");
    let e = deep_think_question_check("   ").unwrap_err();
    assert_eq!(e.reason, "Empty input");
    assert!(deep_think_question_check("why?").is_ok());
}

#[test]
fn voice_answers() {
    assert_eq!(voice_text("text:[hello there]"), "hello there");
    assert_eq!(voice_text("say hi"), "say hi");
    let ok = voice_reply(Ok("/mock/path.wav".to_string())).unwrap();
    assert!(ok.contains("[ATTACH_AUDIO](/mock/path.wav)"));
    let e = voice_reply(Err("Some dummy IO fail".to_string())).unwrap_err();
    assert_eq!((e.output.as_str(), e.reason.as_str()), ("Some dummy IO fail", "Some dummy IO fail"));
    assert_eq!(voice_failure(VoiceStage::Generate, "x"), "Voice generation failed: x");
    assert_eq!(voice_failure(VoiceStage::Start, "y"), "Voice initialization failed: y");
}

#[test]
fn lesson_drone_requests() {
    let e = parse_store_lesson("keywords:[fire, burn]").err().unwrap();
    assert_eq!((e.output.as_str(), e.reason.as_str()), ("Error: Missing 'lesson:' field.", "Missing field"));
    let l = parse_store_lesson("lesson:[Fire is hot] keywords:[fire, hot] confidence:[0.9] scope:[public_general]").unwrap();
    assert_eq!(l.lesson, "Fire is hot");
    assert_eq!(l.keywords, vec!["fire".to_string(), "hot".to_string()]);
    assert_eq!(l.confidence, "0.9");
    assert!(matches!(l.scope, Scope::Public { ref channel_id, .. } if channel_id == "general"));
    let l = parse_store_lesson("lesson:[Water is wet] keywords:[water] confidence:[high] scope:[private_userX]").unwrap();
    assert!(matches!(l.scope, Scope::Private { ref user_id } if user_id == "userX"));
    assert_eq!(lesson_stored_reply(Ok(())).unwrap(), "Lesson stored successfully.");
    assert_eq!(lesson_stored_reply(Err("full".to_string())).unwrap_err().output, "Failed to store lesson: full");
}

#[test]
fn credits_requests() {
    assert!(matches!(parse_credits_command("", false).unwrap(), CreditsCommand::Balance));
    let e = parse_credits_command("action:[earn] amount:[50]", false).unwrap_err();
    assert_eq!((e.output.as_str(), e.reason.as_str()), (EARN_DENIED_TEXT, "Not admin"));
    match parse_credits_command("action:[earn] amount:[50]", true).unwrap() {
        CreditsCommand::Earn { amount, source } => {
            assert_eq!(amount, Some("50".to_string()));
            assert_eq!(source, "manual");
        }
        _ => panic!("expected earn"),
    }
    match parse_credits_command("action:[spend] amount:[25]", false).unwrap() {
        CreditsCommand::Spend { amount, service } => {
            assert_eq!(amount, Some("25".to_string()));
            assert_eq!(service, "marketplace_purchase");
        }
        _ => panic!("expected spend"),
    }
    match parse_credits_command("action:[history] limit:[3]", false).unwrap() {
        CreditsCommand::History { limit } => assert_eq!(limit, 3),
        _ => panic!("expected history"),
    }
    let e = parse_credits_command("action:[steal]", true).unwrap_err();
    assert!(e.output.contains("Unknown credits action"));
    assert_eq!(earn_reason("admin", "bonus"), "Manual adjustment by admin (bonus)");
    assert_eq!(leaderboard_head(10, true), "📊 No credit earners yet. Be the first to earn credits!");
    assert_eq!(leaderboard_head(5, false), "🏆 **Credit Leaderboard** (Top 5)\n\n");
    assert_eq!((medal(0), medal(1), medal(2), medal(3)), ("🥇", "🥈", "🥉", "  "));
}

#[test]
fn wallet_and_card_requests() {
    let e = parse_wallet_command("action:[create]", "u1", false).unwrap_err();
    assert_eq!((e.output.as_str(), e.reason.as_str()), (WALLET_DENIED_TEXT, "Not admin"));
    match parse_wallet_command("action:[create]", "u1", true).unwrap() {
        WalletCommand::Create { wallet_id } => assert_eq!(wallet_id, "u1"),
        _ => panic!("expected create"),
    }
    let e = parse_wallet_command("action:[send] amount:[5]", "u1", true).unwrap_err();
    assert_eq!(e.reason, "Missing recipient");
    match parse_wallet_command("action:[send] to:[bob] amount:[5] user_id:[apis_system]", "u1", true).unwrap() {
        WalletCommand::Send { from, to, amount } => {
            assert_eq!((from.as_str(), to.as_str()), ("apis_system", "bob"));
            assert_eq!(amount, Some("5".to_string()));
        }
        _ => panic!("expected send"),
    }
    assert!(is_system_wallet("apis_system"));
    assert!(!is_system_wallet("alice"));
    assert!(duplicate_send("bob", true, 10, "bob"));
    assert!(!duplicate_send("bob", true, 30, "bob"));
    assert!(!duplicate_send("bob", false, 1, "bob"));
    assert!(parse_card_command("", "apis_autonomy", false).is_ok());
    assert!(parse_card_command("", "alice", false).is_err());
    assert!(matches!(parse_card_command("action:[buy]", "alice", true).unwrap(), CardCommand::Buy));
    assert_eq!(rarity_mark("Rare"), "💎");
    assert_eq!(rarity_mark("Mythic"), "❓");
    assert_eq!(gallery_more_note(25), "\n_...and 5 more_\n");
    assert_eq!(gallery_more_note(20), "");
}

fn planned(tool: &str, id: &str, desc: &str) -> AgentTask {
    AgentTask { task_id: id.into(), tool_type: tool.into(), description: desc.into(), depends_on: vec![] }
}

#[test]
fn completed_result_carries_the_reply() {
    let r = completed_result("agent_1", "found it".into(), vec!["t1".into()], 1200, 3);
    assert_eq!(r.agent_id, "agent_1");
    assert_eq!(r.output, "found it");
    assert_eq!(r.status, SubAgentStatus::Completed);
    assert_eq!(r.tools_called, vec!["t1".to_string()]);
    assert_eq!((r.duration_ms, r.turns_used), (1200, 3));
}

#[test]
fn turn_loop_steps() {
    let admin_tools = vec!["run_bash_command".to_string()];
    let mut s = RunState::new(2, String::new());
    assert!(matches!(s.step(RunEvent::Begin, &admin_tools, false), RunAction::Generate));
    assert_eq!(s.turn, 1);
    assert_eq!(s.context, "\n\nSub-Agent ReAct Turn 1\n");
    // tools and a reply in one plan: the blocked tool is noted, the reply waits
    let tasks = vec![
        planned("web_search", "t1", "q"),
        planned("run_bash_command", "t2", "ls"),
        planned("reply_to_request", "t3", "done"),
    ];
    match s.step(RunEvent::Planned { candidate: " {plan} ".into(), tasks }, &admin_tools, false) {
        RunAction::RunTools { tasks } => {
            assert_eq!(tasks.len(), 1);
            assert_eq!(tasks[0].task_id, "t1");
        }
        _ => panic!("expected tools"),
    }
    assert!(s.reply_waiting);
    assert!(s.context.ends_with(
        "Turn 1 Agent:\n{plan}\nTurn 1 - Task t2: SECURITY VIOLATION — run_bash_command requires admin privileges.\n\n"
    ));
    let results = vec![ToolOutcome { task_id: "t1".into(), status: "Success".into(), output: "sunny".into() }];
    assert!(matches!(s.step(RunEvent::ToolsRan { results }, &admin_tools, false), RunAction::Generate));
    assert_eq!(s.tools_called, vec!["t1".to_string()]);
    assert!(s.context.contains("Turn 1 - Task t1: Success\nOutput: sunny\n\n"));
    assert!(s.context.contains("Turn 1 - [SYSTEM: Reply deferred"));
    assert_eq!(s.turn, 2);
    // a lone reply completes the run
    let tasks = vec![planned("reply_to_request", "t4", "the answer")];
    match s.step(RunEvent::Planned { candidate: "x".into(), tasks }, &admin_tools, false) {
        RunAction::Complete { reply } => assert_eq!(reply, "the answer"),
        _ => panic!("expected completion"),
    }
    // the budget is spent
    assert!(matches!(s.step(RunEvent::PlanInvalid, &admin_tools, false), RunAction::OutOfTurns));
    assert!(s.context.ends_with("Turn 2 - [SYSTEM ERROR] Your output was not valid JSON. Output EXACTLY one JSON block.\n\n"));
    assert_eq!(s.turn, 2);
}
