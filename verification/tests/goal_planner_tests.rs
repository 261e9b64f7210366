use hive_agent::goal_planner::{json_span, select_goal, GoalCandidate};

/// Priorities of the planner are fractions; the candidates carry them in
/// thousandths, which orders them the same way.
fn key(p: f64) -> u64 {
    (p * 1000.0) as u64
}

#[test]
fn test_select_goal_empty() {
    assert!(select_goal(&[]).is_none());
}

#[test]
fn test_select_goal_priority_ordering() {
    let goals = vec![
        GoalCandidate { id: "low".into(), priority_key: key(0.2), deadline_key: None },
        GoalCandidate { id: "high".into(), priority_key: key(0.9), deadline_key: None },
    ];
    assert_eq!(select_goal(&goals), Some("high".into()));
}

#[test]
fn select_goal_prefers_earlier_deadline_on_equal_priority() {
    let goals = vec![
        GoalCandidate { id: "late".into(), priority_key: 500, deadline_key: Some(200) },
        GoalCandidate { id: "soon".into(), priority_key: 500, deadline_key: Some(100) },
    ];
    assert_eq!(select_goal(&goals), Some("soon".into()));
}

#[test]
fn json_span_cuts_first_open_to_last_close() {
    assert_eq!(json_span("  Here: [{\"a\":[1]}] done ", '[', ']').as_deref(), Some("[{\"a\":[1]}]"));
    assert_eq!(json_span("{\"complete\": true}", '{', '}').as_deref(), Some("{\"complete\": true}"));
    assert_eq!(json_span("no json", '[', ']'), None);
    assert_eq!(json_span("only [ open", '[', ']'), None);
    assert_eq!(json_span("][", '[', ']').as_deref(), Some(""));
}
