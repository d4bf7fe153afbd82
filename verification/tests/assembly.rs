//! Tool-set assembly and delegation-topology behaviour.

use agent_session::agent_tool_names;
use agent_session::available_builtin_tools;
use agent_session::delegate_tool_names;
use agent_session::delegate_tool_spec;
use agent_session::AgentEditMode;
use agent_session::AgentTopology;
use agent_session::SessionConfig;

fn base_config() -> SessionConfig {
    SessionConfig {
        edit_mode: AgentEditMode::Line,
        topology: AgentTopology::Coding,
        github_enabled: false,
        web_search_enabled: false,
        test_command: None,
        coverage_command: None,
        disabled_tools: Vec::new(),
        tool_providers: Vec::new(),
    }
}

#[test]
fn line_mode_without_integrations() {
    let cfg = base_config();
    let tools = available_builtin_tools(&cfg, false);
    let expected = vec![
        "write_file",
        "search_file",
        "git",
        "shell_command",
        "search_code",
        "fetch_url",
        "explain_code",
        "read_file_with_line_numbers",
        "replace_lines",
        "add_lines",
    ];
    assert_eq!(tools, expected);
    assert!(!tools.iter().any(|t| t == "read_file"));
    assert!(!tools.iter().any(|t| t == "patch_file"));
}

#[test]
fn whole_mode_with_everything_configured() {
    let mut cfg = base_config();
    cfg.edit_mode = AgentEditMode::Whole;
    cfg.github_enabled = true;
    cfg.web_search_enabled = true;
    cfg.test_command = Some(String::from("cargo test"));
    cfg.coverage_command = Some(String::from("cargo tarpaulin"));
    let tools = available_builtin_tools(&cfg, true);
    let expected = vec![
        "write_file",
        "search_file",
        "git",
        "shell_command",
        "search_code",
        "fetch_url",
        "explain_code",
        "write_file",
        "read_file",
        "create_or_update_pull_request",
        "github_search_code",
        "search_web",
        "run_tests",
        "run_coverage",
        "reset_file",
    ];
    assert_eq!(tools, expected);
}

#[test]
fn patch_mode_selects_patch_group() {
    let mut cfg = base_config();
    cfg.edit_mode = AgentEditMode::Patch;
    let tools = available_builtin_tools(&cfg, false);
    assert!(tools.iter().any(|t| t == "read_file_with_line_numbers"));
    assert!(tools.iter().any(|t| t == "patch_file"));
    assert!(!tools.iter().any(|t| t == "replace_lines"));
    assert!(!tools.iter().any(|t| t == "add_lines"));
}

#[test]
fn disabled_tool_removed_from_every_branch() {
    let mut cfg = base_config();
    cfg.edit_mode = AgentEditMode::Whole;
    cfg.test_command = Some(String::from("make test"));
    cfg.disabled_tools = vec![String::from("write_file"), String::from("run_tests")];
    let tools = available_builtin_tools(&cfg, false);
    // "write_file" was added by the baseline and again by the whole-file
    // group; disabling it removes both occurrences.
    assert!(!tools.iter().any(|t| t == "write_file"));
    assert!(!tools.iter().any(|t| t == "run_tests"));
    assert!(tools.iter().any(|t| t == "read_file"));
}

#[test]
fn assembly_is_deterministic() {
    let mut cfg = base_config();
    cfg.github_enabled = true;
    cfg.disabled_tools = vec![String::from("git")];
    let first = available_builtin_tools(&cfg, true);
    let second = available_builtin_tools(&cfg, true);
    assert_eq!(first, second);
}

#[test]
fn delegate_set_excludes_blacklist_and_has_delegate_once() {
    let mut cfg = base_config();
    cfg.edit_mode = AgentEditMode::Line;
    cfg.web_search_enabled = true;
    let tools = available_builtin_tools(&cfg, true);
    let outer = delegate_tool_names(&tools);
    for banned in ["write_file", "shell_command", "replace_lines", "add_lines"] {
        assert!(!outer.iter().any(|t| t == banned), "{banned} leaked into the outer set");
    }
    let delegate_count = outer.iter().filter(|t| *t == "delegate_coding_agent").count();
    assert_eq!(delegate_count, 1);
    assert_eq!(outer.last().map(String::as_str), Some("delegate_coding_agent"));
    // Non-mutating tools survive the filter in order.
    assert_eq!(outer[0], "search_file");
    assert!(outer.iter().any(|t| t == "search_web"));
}

#[test]
fn delegate_tool_spec_shape() {
    let spec = delegate_tool_spec();
    assert_eq!(spec.name, "delegate_coding_agent");
    assert_eq!(
        spec.description,
        "If you have a coding task, delegate to the coding agent. Provide a thorough description of the task and relevant details."
    );
    assert_eq!(spec.parameters.len(), 1);
    assert_eq!(spec.parameters[0].name, "task");
    assert_eq!(spec.parameters[0].description, "An in depth description of the task");
    assert!(spec.parameters[0].required);
}

#[test]
fn topology_selects_outer_tool_set() {
    let mut cfg = base_config();
    let tools = available_builtin_tools(&cfg, false);
    let coding = agent_tool_names(&cfg, &tools);
    assert_eq!(coding, tools);

    cfg.topology = AgentTopology::PlanAct;
    let outer = agent_tool_names(&cfg, &tools);
    assert_eq!(outer, delegate_tool_names(&tools));
    assert!(outer.len() < tools.len() + 1);
}
