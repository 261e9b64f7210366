use hive_agent::models::ToolTemplate;
use hive_agent::registry::AgentManager;

#[test]
fn agent_manager_wires_subsystems() {
    let am = AgentManager::new();
    assert!(!am.has_outreach());
    let s = am.services(false, false);
    assert!(!s.goal_store && !s.tool_forge && !s.opencode_bridge);
    let am = am.with_outreach().with_goals().with_forge().with_opencode();
    assert!(am.has_outreach());
    let s = am.services(true, false);
    assert!(s.agent_manager && !s.capabilities);
    assert!(s.goal_store && s.tool_forge && s.opencode_bridge);
    assert!(am.get_template("web_search").is_some());
}

#[test]
fn autonomy_list_hides_moderation_tools() {
    let mut am = AgentManager::new();
    am.register_tool(ToolTemplate { name: "mute_user".into(), system_prompt: "Mute someone.".into(), tools: vec![] });
    am.register_tool(ToolTemplate { name: "weather".into(), system_prompt: "Weather.".into(), tools: vec![] });
    let full = am.get_available_tools_text(false);
    let own = am.get_available_tools_text(true);
    assert!(full.contains("- TOOL `mute_user`: Mute someone.\n"));
    assert!(!own.contains("- TOOL `mute_user`"));
    assert!(own.contains("- TOOL `weather`: Weather.\n"));
    for m in ["refuse_request", "disengage", "mute_user", "set_boundary", "block_topic",
        "escalate_to_admin", "report_concern", "rate_limit_user", "request_consent", "wellbeing_status"]
    {
        assert!(full.contains(&format!("- TOOL `{}`", m)));
        assert!(!own.contains(&format!("- TOOL `{}`", m)));
    }
    assert!(own.contains("- TOOL `web_search`"));
}

#[test]
fn default_tool_names_are_distinct_and_found() {
    let am = AgentManager::new();
    let names = am.get_tool_names();
    assert_eq!(names.len(), 46);
    let set: std::collections::HashSet<&String> = names.iter().collect();
    assert_eq!(set.len(), 46);
    for n in &names {
        let t = am.get_template(n).unwrap();
        assert_eq!(&t.name, n);
        assert!(t.tools.is_empty());
    }
    assert!(am.get_template("no_such_tool").is_none());
    let (universal, discord) = hive_agent::registry::build_default_registries();
    for n in discord.names() {
        assert!(universal.get(&n).is_none());
        assert!(discord.get(&n).is_some());
    }
}

#[test]
fn platform_list_adds_the_discord_tools() {
    let am = AgentManager::new();
    let (_, discord) = hive_agent::registry::build_default_registries();
    let mut extra = String::from("\n## Platform-Specific Tools (Discord)\n");
    for n in ["channel_reader", "emoji_react"] {
        let t = discord.get(n).unwrap();
        extra.push_str(&format!("- TOOL `{}`: {}\n", t.name, t.system_prompt));
    }
    for aut in [false, true] {
        let base = am.get_available_tools_text(aut);
        assert_eq!(am.get_available_tools_text_for_platform("discord:42", aut), format!("{}{}", base, extra));
        assert_eq!(am.get_available_tools_text_for_platform("discord", aut), format!("{}{}", base, extra));
        assert_eq!(am.get_available_tools_text_for_platform("cli:1", aut), base);
    }
    let (u, d) = hive_agent::registry::build_default_registries();
    for n in u.names().iter().chain(d.names().iter()) {
        let t = u.get(n).or_else(|| d.get(n)).unwrap();
        assert!(!t.system_prompt.is_empty());
    }
}
