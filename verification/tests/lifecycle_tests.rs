use hive_agent::lifecycle::AgentLifecycle;

fn lifecycle(spawned: u64, completed: u64, failed: u64, timed_out: u64, ms: u64, tools: u64) -> AgentLifecycle {
    AgentLifecycle {
        total_spawned: spawned,
        total_completed: completed,
        total_failed: failed,
        total_timed_out: timed_out,
        total_duration_ms: ms,
        total_tools_used: tools,
    }
}

/// The success rate, a float the runtime computes from the counters.
fn success_rate(lc: &AgentLifecycle) -> f64 {
    if lc.spawned() == 0 {
        return 100.0;
    }
    (lc.completed() as f64 / lc.spawned() as f64) * 100.0
}

/// The average duration in seconds as the runtime formats it.
fn avg_secs(lc: &AgentLifecycle) -> String {
    format!("{:.1}", lc.avg_duration_ms() as f64 / 1000.0)
}

fn hud(lc: &AgentLifecycle) -> String {
    lc.format_hud_line(&avg_secs(lc))
}

fn dashboard(lc: &AgentLifecycle) -> String {
    lc.format_dashboard(&format!("{:.1}", success_rate(lc)), &avg_secs(lc))
}

#[test]
fn test_hud_line_no_agents() {
    let lc = lifecycle(0, 0, 0, 0, 0, 0);
    assert!(hud(&lc).contains("No agents spawned"));
}

#[test]
fn test_hud_line_with_agents() {
    let lc = lifecycle(3, 3, 0, 0, 6000, 10);
    let line = hud(&lc);
    assert!(line.contains("3 spawned"));
    assert!(line.contains("3 completed"));
    assert!(line.contains("HEALTHY"));
}

#[test]
fn test_dashboard_formatting() {
    let lc = lifecycle(10, 8, 1, 1, 16000, 25);
    let dashboard = dashboard(&lc);
    assert!(dashboard.contains("Total Spawned:** 10"));
    assert!(dashboard.contains("HEALTHY"));
}

#[test]
fn counters_record_each_event() {
    let mut lc = AgentLifecycle::new();
    lc.record_spawn_batch(5);
    lc.record_completion(1000, 3);
    lc.record_completion(2000, 2);
    lc.record_failure();
    lc.record_failure();
    lc.record_timeout();
    assert_eq!(lc.spawned(), 5);
    assert_eq!(lc.completed(), 2);
    assert_eq!(lc.failed(), 2);
    assert_eq!(lc.timed_out(), 1);
    assert_eq!(lc.avg_duration_ms(), 1500);
    assert_eq!(lc.health_status(), "CRITICAL");
    assert!(dashboard(&lc).contains("2 (40.0% success rate)"));
    assert!(hud(&lc).contains("Avg 1.5s"));
}

#[test]
fn test_lifecycle_metrics() {
    let mut lc = lifecycle(0, 0, 0, 0, 0, 0);
    let rate = success_rate;

    assert_eq!(lc.spawned(), 0);
    assert_eq!(rate(&lc), 100.0);
    assert_eq!(lc.health_status(), "HEALTHY");

    lc.record_spawn_batch(5);
    lc.record_completion(1000, 3);
    lc.record_completion(2000, 5);
    lc.record_failure();
    lc.record_timeout();

    assert_eq!(lc.spawned(), 5);
    assert_eq!(lc.completed(), 2);
    assert_eq!(lc.failed(), 1);
    assert_eq!(lc.timed_out(), 1);
    assert_eq!(lc.avg_duration_ms(), 1500);
    assert!((rate(&lc) - 40.0).abs() < 0.1);
    assert_eq!(lc.health_status(), "CRITICAL");
}

#[test]
fn average_is_shown_as_the_float_formats_it() {
    // 1.05 s lies just above the decimal tie as a float, so it shows as 1.1
    let lc = lifecycle(1, 1, 0, 0, 1050, 0);
    assert!(hud(&lc).contains("Avg 1.1s"));
    assert!(dashboard(&lc).contains("Avg Duration:** 1.1s"));
}
