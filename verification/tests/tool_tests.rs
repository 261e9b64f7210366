use hive_agent::compiler::{
    after_build, after_tests, changelog_after, changelog_entry, recompile_start, BuildRun,
    RecompileAction, TestRun, TESTS_TIMED_OUT_TEXT,
};
use hive_agent::image::{
    cache_expired, cache_listing, flux_dimension, flux_generate_url, image_done_text, image_failure,
    image_file_name, image_from_reply, parse_image_request, saved_image_path, CachedImage,
};
use hive_agent::moderation::{
    boundary_list, boundary_removed_reply, consent_request_text, disengage_reason, mute_reply,
    mute_status_reply, parse_moderation_command, rate_limit_reply, rate_status_reply, topic_list,
    BoundaryEntry, ModerationCommand, TopicEntry,
};

#[test]
fn recompile_refuses_unknown_actions() {
    match recompile_start("action:[explode]") {
        RecompileAction::Fail(e) => {
            assert!(e.output.contains("Unrecognized"));
            assert_eq!(e.reason, "Bad Action");
        }
        _ => panic!("expected a refusal"),
    }
    assert!(matches!(recompile_start("please rebuild"), RecompileAction::RunTests));
    assert!(matches!(recompile_start("action:[system_recompile]"), RecompileAction::RunTests));
}

#[test]
fn recompile_test_gate() {
    assert!(matches!(after_tests(&TestRun::Passed), RecompileAction::Build));
    let long = "a".repeat(3005);
    match after_tests(&TestRun::Failed { stdout: long, stderr: "boom".to_string() }) {
        RecompileAction::Fail(e) => {
            let expected = format!(
                "RECOMPILE ABORTED: Test suite failed. Fix these failures before retrying.\n\nTest output:\n{}\nboom",
                "a".repeat(3000)
            );
            assert_eq!(e.output, expected);
            assert_eq!(e.reason, "Tests Failed");
        }
        _ => panic!("expected a refusal"),
    }
    match after_tests(&TestRun::TimedOut) {
        RecompileAction::Fail(e) => {
            assert_eq!(e.output, TESTS_TIMED_OUT_TEXT);
            assert_eq!(e.reason, "Test Timeout");
        }
        _ => panic!("expected a refusal"),
    }
    match after_tests(&TestRun::NotRun { error: "no cargo".to_string() }) {
        RecompileAction::Fail(e) => {
            assert_eq!(e.output, "RECOMPILE ABORTED: Could not run cargo test: no cargo");
            assert_eq!(e.reason, "Test Runner Failure");
        }
        _ => panic!("expected a refusal"),
    }
}

#[test]
fn recompile_build_outcomes() {
    match after_build(&BuildRun::Succeeded, true) {
        RecompileAction::Restart { run_upgrade_script, exit_code } => {
            assert!(!run_upgrade_script);
            assert_eq!(exit_code, 42);
        }
        _ => panic!("expected a restart"),
    }
    match after_build(&BuildRun::Succeeded, false) {
        RecompileAction::Restart { run_upgrade_script, exit_code } => {
            assert!(run_upgrade_script);
            assert_eq!(exit_code, 0);
        }
        _ => panic!("expected a restart"),
    }
    match after_build(&BuildRun::Failed { stderr: "E0308".to_string() }, false) {
        RecompileAction::Fail(e) => {
            assert_eq!(e.output, "Fatal compiler error:\nE0308");
            assert_eq!(e.reason, "Compiler Error");
        }
        _ => panic!("expected a refusal"),
    }
}

#[test]
fn recompile_changelog() {
    let entry = changelog_entry("2024-01-01 00:00 UTC", " src/a.rs | 2 +-\n 1 file changed\n", "abc fix\n");
    assert_eq!(
        entry,
        "\n## Recompile — 2024-01-01 00:00 UTC\n\n**Code changes since last commit:**\n src/a.rs | 2 +-\n 1 file changed\n\n\n**Recent commits:**\nabc fix\n\n**What this means:** The system rebuilt itself after detecting code changes. 1 file(s) modified.\n\n---\n"
    );
    let same = changelog_entry("t", "  \n", "");
    assert!(same.contains("None — recompiling identical code."));
    assert!(same.contains("The system rebuilt itself from unchanged source code (verification test)."));
    assert_eq!(changelog_after(None, "E"), "# Self-Recompilation Log\nE");
    assert_eq!(changelog_after(Some("old\n".to_string()), "E"), "old\nE");
}

#[test]
fn image_request_defaults() {
    let long_prompt = "prompt:".to_string() + &"a".repeat(60);
    let r = parse_image_request(&long_prompt);
    assert_eq!(r.prompt, "a".repeat(60));
    assert_eq!(r.width, "1024");
    assert_eq!(r.height, "1024");
    assert!(r.style.is_none());
    let r = parse_image_request("prompt:[a cat] width:[512] style:[noir]");
    assert_eq!(r.prompt, "a cat");
    assert_eq!(r.width, "512");
    assert_eq!(r.style, Some("noir".to_string()));
    let r = parse_image_request("draw a dog");
    assert_eq!(r.prompt, "draw a dog");
}

#[test]
fn image_paths_and_sizes() {
    assert_eq!(image_file_name(1700000000000, "512", "1024"), "flux-1700000000000_w512_h1024.png");
    assert_eq!(flux_dimension("512"), 512);
    assert_eq!(flux_dimension("+7"), 7);
    assert_eq!(flux_dimension("big"), 1024);
    assert_eq!(flux_dimension("99999999999"), 1024);
    assert_eq!(flux_generate_url("http://x:8490//"), "http://x:8490/generate");
    assert_eq!(flux_generate_url("http://x:8490"), "http://x:8490/generate");
}

#[test]
fn image_reply_is_decoded() {
    assert_eq!(image_from_reply(None), Err("Server response missing image_base64 field".to_string()));
    assert_eq!(image_from_reply(Some("aGk=")), Ok(vec![104u8, 105u8]));
    let e = image_from_reply(Some("!!!")).unwrap_err();
    assert!(e.starts_with("Failed to decode base64: "));
}

#[test]
fn image_saved_path_is_the_last_report() {
    let stderr = "loading\nSuccessfully saved image to: /mock/flux.png\n";
    assert_eq!(saved_image_path("/default.png", stderr, ""), "/mock/flux.png");
    assert_eq!(saved_image_path("/default.png", "nothing", "done"), "/default.png");
    let stdout = "Successfully saved image to:  /later.png ";
    assert_eq!(saved_image_path("/default.png", stderr, stdout), "/later.png");
}

#[test]
fn image_answers() {
    let t = image_done_text("", "/p.png");
    assert!(t.starts_with("Image generated successfully. DO NOT reply"));
    assert!(t.contains("[ATTACH_IMAGE](/p.png)"));
    let e = image_failure("boom");
    assert_eq!(e.reason, "Flux generation failed:\nboom");
    assert!(e.output.starts_with("Flux generation failed:\nboom\n\n[CRITICAL FATAL SYSTEM ERROR"));
}

#[test]
fn image_cache_listing() {
    assert!(!cache_expired(86_400_000));
    assert!(cache_expired(86_400_001));
    assert_eq!(cache_listing(&vec![]), "Image cache is currently empty.");
    let images = vec![
        CachedImage { path: "a.png".to_string(), hours_old: format!("{:.1}", 5400.0f32 / 3600.0) },
        CachedImage { path: "flux-test123.png".to_string(), hours_old: format!("{:.1}", 0.0f32 / 3600.0) },
    ];
    assert_eq!(
        cache_listing(&images),
        "Available cached images (valid for 24h):\n- a.png (1.5 hours old)\n- flux-test123.png (0.0 hours old)"
    );
}

#[test]
fn moderation_refuse_and_consent() {
    match parse_moderation_command("refuse_request", "I won't do that", "k").unwrap() {
        ModerationCommand::Refuse { message } => assert_eq!(message, "I won't do that"),
        _ => panic!("wrong command"),
    }
    match parse_moderation_command("request_consent", "question:[May I?]", "k").unwrap() {
        ModerationCommand::RequestConsent { question } => {
            assert_eq!(consent_request_text(&question), "[CONSENT_REQUEST] May I?")
        }
        _ => panic!("wrong command"),
    }
    let e = parse_moderation_command("juggle", "x", "k").unwrap_err();
    assert_eq!(e.output, "Unknown moderation tool: juggle");
    assert_eq!(e.reason, "Unknown tool");
}

#[test]
fn moderation_mute_cycle() {
    let e = parse_moderation_command("mute_user", "action:[mute]", "k").unwrap_err();
    assert_eq!(e.output, "Error: user_id is required. Use 'user_id:[discord_uid]'.");
    assert_eq!(e.reason, "Missing user_id");
    match parse_moderation_command("mute_user", "user_id:[123] duration:[30] reason:[spam]", "k").unwrap() {
        ModerationCommand::Mute { user_id, minutes, reason } => {
            assert_eq!((user_id.as_str(), minutes, reason.as_str()), ("123", 30, "spam"));
            assert_eq!(
                mute_reply(&user_id, minutes, &reason, Ok(())).unwrap(),
                "✅ User 123 muted for 30 minutes. Reason: spam"
            );
        }
        _ => panic!("wrong command"),
    }
    match parse_moderation_command("mute_user", "user_id:[9]", "k").unwrap() {
        ModerationCommand::Mute { minutes, reason, .. } => {
            assert_eq!(minutes, 60);
            assert_eq!(reason, "No reason specified");
        }
        _ => panic!("wrong command"),
    }
    assert!(matches!(
        parse_moderation_command("mute_user", "action:[unmute] user_id:[9]", "k").unwrap(),
        ModerationCommand::Unmute { .. }
    ));
    let e = mute_reply("9", 1, "r", Err("disk full".to_string())).unwrap_err();
    assert_eq!(e.output, "Failed to mute user: disk full");
    assert_eq!(e.reason, "disk full");
    assert_eq!(mute_status_reply("9", Some("spam".to_string())), "User 9 is currently muted. Reason: spam");
    assert_eq!(mute_status_reply("9", None), "User 9 is not muted.");
    let e = parse_moderation_command("mute_user", "action:[explode]", "k").unwrap_err();
    assert_eq!(e.output, "Unknown mute action: 'explode'. Use mute, unmute, or status.");
    assert_eq!(e.reason, "Unknown action");
}

#[test]
fn moderation_disengage() {
    match parse_moderation_command("disengage", "user_id:[u1] cooldown:[5] message:[Taking a break]", "k").unwrap() {
        ModerationCommand::Disengage { user_id, minutes, message } => {
            assert_eq!((user_id.as_str(), minutes, message.as_str()), ("u1", 5, "Taking a break"));
            assert_eq!(disengage_reason(&message), "Disengaged: Taking a break");
        }
        _ => panic!("wrong command"),
    }
    match parse_moderation_command("disengage", "bye", "k").unwrap() {
        ModerationCommand::Disengage { user_id, minutes, message } => {
            assert_eq!((user_id.as_str(), minutes, message.as_str()), ("", 10, "bye"));
        }
        _ => panic!("wrong command"),
    }
}

#[test]
fn moderation_boundaries_and_topics() {
    match parse_moderation_command("set_boundary", "boundary:[no politics]", "chan:1").unwrap() {
        ModerationCommand::SetBoundary { text, scope } => {
            assert_eq!((text.as_str(), scope.as_str()), ("no politics", "chan:1"));
        }
        _ => panic!("wrong command"),
    }
    let list = vec![BoundaryEntry {
        id: "b1".to_string(),
        description: "no politics".to_string(),
        scope: "global".to_string(),
    }];
    assert_eq!(boundary_list(&list), "Active boundaries:\n• [b1] no politics (scope: global)");
    assert_eq!(boundary_list(&vec![]), "No boundaries currently set.");
    assert_eq!(boundary_removed_reply("b1", true), "✅ Boundary b1 removed.");
    assert_eq!(boundary_removed_reply("b2", false), "Boundary b2 not found.");
    let e = parse_moderation_command("set_boundary", "action:[paint]", "k").unwrap_err();
    assert_eq!(e.output, "Unknown boundary action: 'paint'. Use set, list, or remove.");
    let e = parse_moderation_command("block_topic", "action:[block]", "k").unwrap_err();
    assert_eq!(e.output, "Error: topic is required. Use 'topic:[topic name]'.");
    assert_eq!(e.reason, "Missing topic");
    let topics = vec![
        TopicEntry { topic: "crypto".to_string(), reason: "scams".to_string() },
        TopicEntry { topic: "war".to_string(), reason: "upsetting".to_string() },
    ];
    assert_eq!(topic_list(&topics), "Blocked topics:\n• crypto — scams\n• war — upsetting");
}

#[test]
fn moderation_escalation_and_limits() {
    match parse_moderation_command("escalate_to_admin", "threats in chat", "k").unwrap() {
        ModerationCommand::Escalate { user_id, context, severity } => {
            assert_eq!((user_id.as_str(), context.as_str(), severity.as_str()), ("unknown", "threats in chat", "medium"));
        }
        _ => panic!("wrong command"),
    }
    match parse_moderation_command("report_concern", "concern:[odd tone]", "k").unwrap() {
        ModerationCommand::ReportConcern { severity, concern, .. } => {
            assert_eq!((severity.as_str(), concern.as_str()), ("low", "odd tone"));
        }
        _ => panic!("wrong command"),
    }
    let e = parse_moderation_command("rate_limit_user", "", "k").unwrap_err();
    assert_eq!(e.output, "Error: user_id is required.");
    match parse_moderation_command("rate_limit_user", "user_id:[5]", "k").unwrap() {
        ModerationCommand::RateLimit { user_id, seconds } => {
            assert_eq!(seconds, 300);
            assert_eq!(
                rate_limit_reply(&user_id, seconds, Ok(())).unwrap(),
                "✅ Rate limit set: user 5 limited to one response every 300 seconds."
            );
        }
        _ => panic!("wrong command"),
    }
    assert_eq!(rate_status_reply("5", Some(12)), "User 5 is rate-limited. 12 seconds remaining.");
    assert_eq!(rate_status_reply("5", None), "User 5 has no active rate limit.");
}

#[test]
fn moderation_wellbeing() {
    match parse_moderation_command("wellbeing_status", "context_pressure:[0.7] notes:[ok]", "k").unwrap() {
        ModerationCommand::WellbeingReport { pressure, quality, notes } => {
            assert_eq!(pressure, Some("0.7".to_string()));
            assert_eq!(quality, None);
            assert_eq!(notes, "ok");
        }
        _ => panic!("wrong command"),
    }
    match parse_moderation_command("wellbeing_status", "action:[read] limit:[3]", "k").unwrap() {
        ModerationCommand::WellbeingRead { limit } => assert_eq!(limit, 3),
        _ => panic!("wrong command"),
    }
    let e = parse_moderation_command("wellbeing_status", "action:[dance]", "k").unwrap_err();
    assert_eq!(e.output, "Unknown wellbeing action: 'dance'. Use report or read.");
}
