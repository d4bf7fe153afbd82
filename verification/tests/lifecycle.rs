//! Session startup, the live session's operations, and toolbox teardown.

use agent_session::collect_toolboxes;
use agent_session::format_initial_context;
use agent_session::join_startup_steps;
use agent_session::replay_slot_ops;
use agent_session::run_teardown;
use agent_session::validate_tool_providers;
use agent_session::AgentHandle;
use agent_session::EnvVar;
use agent_session::GitEnvironment;
use agent_session::ProviderOutcome;
use agent_session::RunningSession;
use agent_session::SandboxHandle;
use agent_session::Session;
use agent_session::SessionMessage;
use agent_session::SlotOp;
use agent_session::StartupError;
use agent_session::Toolbox;
use agent_session::ToolProviderConfig;

fn provider(name: &str, command: &str) -> ToolProviderConfig {
    ToolProviderConfig {
        name: String::from(name),
        command: String::from(command),
        args: vec![String::from("--stdio")],
        env: vec![EnvVar { key: String::from("API_KEY"), value: String::from("SECRET-REDACTED") }],
        filter: None,
    }
}

fn session() -> Session {
    Session::builder()
        .session_id(7)
        .initial_query(String::from("add a parser"))
        .build()
        .unwrap()
}

fn running() -> RunningSession {
    RunningSession::new(
        session(),
        AgentHandle { id: 1 },
        Vec::new(),
        SandboxHandle { sandbox_id: 3 },
        GitEnvironment {
            branch_name: String::from("chat/add-a-parser"),
            start_ref: String::from("abc123"),
        },
    )
}

#[test]
fn builder_reports_missing_fields() {
    let err = Session::builder().build().unwrap_err();
    assert_eq!(err.describe(), "failed to build session: missing field session_id");

    let err = Session::builder().session_id(1).build().unwrap_err();
    assert_eq!(err.describe(), "failed to build session: missing field initial_query");
}

#[test]
fn builder_produces_descriptor() {
    let s = Session::builder()
        .session_id(42)
        .initial_query(String::from("fix the bug"))
        .build_hook(true)
        .build()
        .unwrap();
    assert_eq!(s.session_id, 42);
    assert_eq!(s.initial_query, "fix the bug");
    assert!(s.has_build_hook);
}

#[test]
fn join_succeeds_when_all_steps_succeed() {
    let parts = join_startup_steps(
        Ok(()),
        Ok(SandboxHandle { sandbox_id: 9 }),
        Ok(String::from("chat/fix-the-bug")),
        Ok(String::from("relevant context")),
    )
    .unwrap();
    assert_eq!(parts.executor.sandbox_id, 9);
    assert_eq!(parts.branch_name, "chat/fix-the-bug");
    assert_eq!(parts.initial_context, "relevant context");
}

#[test]
fn join_fails_fast_on_any_step() {
    let err = join_startup_steps(
        Ok(()),
        Err(StartupError::SandboxStart(String::from("no runtime"))),
        Ok(String::from("branch")),
        Err(StartupError::Retrieval(String::from("index offline"))),
    )
    .unwrap_err();
    // The first failed step, in step order, is surfaced.
    assert_eq!(err.describe(), "failed to start execution sandbox: no runtime");

    let err = join_startup_steps(
        Err(StartupError::Naming(String::from("model unavailable"))),
        Ok(SandboxHandle { sandbox_id: 1 }),
        Ok(String::from("branch")),
        Ok(String::from("context")),
    )
    .unwrap_err();
    assert_eq!(err.describe(), "failed to derive chat title: model unavailable");

    let err = join_startup_steps(
        Ok(()),
        Ok(SandboxHandle { sandbox_id: 1 }),
        Err(StartupError::BranchName(String::from("no name"))),
        Ok(String::from("context")),
    )
    .unwrap_err();
    assert_eq!(err.describe(), "failed to derive branch name: no name");

    let err = join_startup_steps(
        Ok(()),
        Ok(SandboxHandle { sandbox_id: 1 }),
        Ok(String::from("branch")),
        Err(StartupError::Retrieval(String::from("index offline"))),
    )
    .unwrap_err();
    assert_eq!(err.describe(), "failed to retrieve initial context: index offline");
}

#[test]
fn initial_context_is_framed() {
    let formatted = format_initial_context("three matching files");
    assert_eq!(formatted, "Additional information:\n\nthree matching files");
}

#[test]
fn empty_provider_command_is_rejected() {
    let providers = vec![provider("alpha", "mcp-alpha"), provider("beta", "")];
    let err = validate_tool_providers(&providers).unwrap_err();
    assert_eq!(err.describe(), "empty command for tool provider beta");

    let ok = validate_tool_providers(&vec![provider("alpha", "mcp-alpha")]);
    assert!(ok.is_ok());
}

#[test]
fn toolboxes_wrap_started_connections() {
    let mut second = provider("beta", "mcp-beta");
    second.filter = Some(vec![String::from("search")]);
    let providers = vec![provider("alpha", "mcp-alpha"), second];
    let outcomes = vec![ProviderOutcome::Started(11), ProviderOutcome::Started(12)];
    let toolboxes = collect_toolboxes(&providers, &outcomes).unwrap();
    assert_eq!(toolboxes.len(), 2);
    assert_eq!(toolboxes[0].name, "alpha");
    assert_eq!(toolboxes[0].connection, 11);
    assert!(toolboxes[0].filter.is_none());
    assert_eq!(toolboxes[1].name, "beta");
    assert_eq!(toolboxes[1].connection, 12);
    assert_eq!(toolboxes[1].filter.as_deref(), Some(&[String::from("search")][..]));
}

#[test]
fn handshake_failure_unwinds_started_connections() {
    // Two providers started concurrently: the first fails its handshake, the
    // second had already connected. Startup aborts naming the first provider
    // and the second's connection is cancelled during unwind.
    let providers = vec![provider("alpha", "mcp-alpha"), provider("beta", "mcp-beta")];
    let outcomes = vec![
        ProviderOutcome::Failed(String::from("handshake refused")),
        ProviderOutcome::Started(7),
    ];
    let failure = collect_toolboxes(&providers, &outcomes).unwrap_err();
    assert_eq!(failure.error.describe(), "failed to start tool provider alpha: handshake refused");
    assert_eq!(failure.started.len(), 1);
    assert_eq!(failure.started[0].connection, 7);

    // Unwind: cancel everything that had started, even if a cancel fails.
    let report = run_teardown(&failure.started, &vec![false]);
    assert_eq!(report.attempted, vec![7]);
    assert_eq!(report.failed, vec![7]);
}

#[test]
fn teardown_attempts_every_connection() {
    let toolboxes = vec![
        Toolbox { name: String::from("a"), connection: 1, filter: None },
        Toolbox { name: String::from("b"), connection: 2, filter: None },
        Toolbox { name: String::from("c"), connection: 3, filter: None },
    ];
    let with_failure = run_teardown(&toolboxes, &vec![true, false, true]);
    assert_eq!(with_failure.attempted, vec![1, 2, 3]);
    assert_eq!(with_failure.failed, vec![2]);

    // A failing cancel changes nothing about which connections are attempted.
    let all_ok = run_teardown(&toolboxes, &vec![true, true, true]);
    assert_eq!(all_ok.attempted, with_failure.attempted);
    assert_eq!(all_ok.failed, Vec::<u64>::new());
}

#[test]
fn reads_observe_initial_or_swapped_values() {
    let ops = vec![
        SlotOp::Read,
        SlotOp::Swap(AgentHandle { id: 10 }),
        SlotOp::Read,
        SlotOp::Swap(AgentHandle { id: 20 }),
        SlotOp::Read,
        SlotOp::Read,
    ];
    let observed = replay_slot_ops(AgentHandle { id: 1 }, &ops);
    assert_eq!(
        observed,
        vec![
            AgentHandle { id: 1 },
            AgentHandle { id: 10 },
            AgentHandle { id: 20 },
            AgentHandle { id: 20 },
        ]
    );
}

#[test]
fn messages_apply_in_send_order() {
    let mut live = running();
    let messages = vec![
        SessionMessage::SwapAgent(AgentHandle { id: 2 }),
        SessionMessage::SwapAgent(AgentHandle { id: 3 }),
    ];
    live.handle_messages(&messages);
    assert_eq!(live.active_agent(), AgentHandle { id: 3 });
    // Nothing but the active agent changed.
    assert_eq!(live.cancel_token().epoch, 0);
    assert_eq!(live.git_environment().start_ref, "abc123");
}

#[test]
fn swap_replaces_the_active_agent() {
    let mut live = running();
    assert_eq!(live.active_agent(), AgentHandle { id: 1 });
    live.swap_agent(AgentHandle { id: 5 });
    assert_eq!(live.active_agent(), AgentHandle { id: 5 });
}

#[test]
fn stop_replaces_the_controller_and_names_the_agent() {
    let mut live = running();
    let mut token = live.cancel_token();
    assert_eq!(token.epoch, 0);
    assert!(!token.cancelled);
    token.cancel();
    assert!(token.cancelled);

    let to_stop = live.stop();
    assert_eq!(to_stop, AgentHandle { id: 1 });
    let fresh = live.cancel_token();
    assert_eq!(fresh.epoch, 1);
    assert!(!fresh.cancelled);

    live.reset_cancel_token();
    assert_eq!(live.cancel_token().epoch, 2);
}

#[test]
fn executor_and_environment_are_stable() {
    let live = running();
    assert_eq!(live.executor(), SandboxHandle { sandbox_id: 3 });
    assert_eq!(live.git_environment().branch_name, "chat/add-a-parser");
}

#[test]
fn errors_describe_their_stage() {
    let cases = vec![
        (
            StartupError::Naming(String::from("x")),
            "failed to derive chat title: x",
        ),
        (
            StartupError::SandboxStart(String::from("x")),
            "failed to start execution sandbox: x",
        ),
        (
            StartupError::BranchName(String::from("x")),
            "failed to derive branch name: x",
        ),
        (
            StartupError::Retrieval(String::from("x")),
            "failed to retrieve initial context: x",
        ),
        (
            StartupError::GitSetup(String::from("x")),
            "failed to set up git environment: x",
        ),
        (
            StartupError::EmptyToolCommand(String::from("p")),
            "empty command for tool provider p",
        ),
        (
            StartupError::ToolboxStart {
                provider: String::from("p"),
                detail: String::from("x"),
            },
            "failed to start tool provider p: x",
        ),
        (
            StartupError::AgentBuild(String::from("x")),
            "failed to build agent: x",
        ),
        (
            StartupError::BuildHook(String::from("x")),
            "agent build hook failed: x",
        ),
    ];
    for (err, expected) in cases {
        assert_eq!(err.describe(), expected);
    }
}
