//! The startup pipeline as a phase machine: each phase names the collaborator
//! outcome it waits for, and each transition consumes the phase and that
//! outcome and decides the next phase. The caller performs the asynchronous
//! work between transitions; every decision — fail-fast joining, validation,
//! what to unwind, what the live session is made of — is taken here.
//!
//! Failure at any phase carries the toolbox connections already started, so
//! the caller can cancel them before the error propagates: a failed startup
//! leaks no subprocess.

use vstd::prelude::*;

use crate::config::SessionConfig;
use crate::delegate::agent_tool_names;
use crate::delegate::delegate_tool_set;
use crate::error::StartupError;
use crate::running::CancelToken;
use crate::running::GitEnvironment;
use crate::running::RunningSession;
use crate::running::SandboxHandle;
use crate::session::AgentHandle;
use crate::session::SessionBuilder;
use crate::session::Session;
use crate::startup::join_spec;
use crate::startup::join_startup_steps;
use crate::startup::StartupParts;
use crate::toolbox::collect_toolboxes;
use crate::toolbox::is_first_empty_command;
use crate::toolbox::is_first_failure;
use crate::toolbox::started_toolboxes;
use crate::toolbox::validate_tool_providers;
use crate::toolbox::ProviderOutcome;
use crate::toolbox::Toolbox;
use crate::tools::assembled_tool_names;
use crate::tools::available_builtin_tools;

verus! {

/// Where the startup pipeline stands. The phases are sequential: the version-
/// control environment needs the sandbox and branch name from the join; the
/// agent build needs the tools and toolboxes.
#[derive(Debug)]
pub enum StartupPhase {
    /// Waiting for the four concurrent startup steps.
    Joining { session: Session },
    /// Waiting for the version-control working environment.
    PreparingGit { session: Session, parts: StartupParts },
    /// Waiting for the toolbox spawn-and-handshake outcomes; the builtin tool
    /// set is already assembled.
    StartingToolboxes {
        session: Session,
        executor: SandboxHandle,
        git_environment: GitEnvironment,
        initial_context: String,
        tools: Vec<String>,
    },
    /// Waiting for the agent build (the customization hook runs inside it).
    BuildingAgent {
        session: Session,
        executor: SandboxHandle,
        git_environment: GitEnvironment,
        initial_context: String,
        tools: Vec<String>,
        toolboxes: Vec<Toolbox>,
    },
    /// Startup finished: the live session, with a fresh cancellation
    /// controller.
    Ready { running: RunningSession },
    /// Startup aborted: the contextual error, and the connections already
    /// started, which must be cancelled before the error propagates.
    Failed { error: StartupError, to_cancel: Vec<Toolbox> },
}

/// Validate the descriptor and enter the pipeline. A missing required field
/// aborts before any resource exists.
pub fn begin_startup(builder: SessionBuilder) -> (r: StartupPhase)
    ensures
        match r {
            StartupPhase::Joining { session } => {
                &&& builder.session_id is Some
                &&& builder.initial_query is Some
                &&& session.session_id == builder.session_id->Some_0
                &&& session.initial_query == builder.initial_query->Some_0
                &&& session.has_build_hook == builder.has_build_hook
            },
            StartupPhase::Failed { error, to_cancel } => {
                &&& (builder.session_id is None || builder.initial_query is None)
                &&& error is MissingField
                &&& to_cancel@.len() == 0
            },
            _ => false,
        },
{
    match builder.build() {
        Ok(session) => StartupPhase::Joining { session },
        Err(error) => StartupPhase::Failed { error, to_cancel: Vec::new() },
    }
}

impl StartupPhase {
    /// Join the four concurrent steps, fail-fast: all four succeeded and the
    /// pipeline moves on, or the first failed step's error aborts it with
    /// nothing to unwind.
    pub fn on_steps_joined(
        self,
        renamed: Result<(), StartupError>,
        sandbox: Result<SandboxHandle, StartupError>,
        branch: Result<String, StartupError>,
        context: Result<String, StartupError>,
    ) -> (r: StartupPhase)
        requires
            self is Joining,
        ensures
            match self {
                StartupPhase::Joining { session } => match join_spec(
                    renamed,
                    sandbox,
                    branch,
                    context,
                ) {
                    Ok(parts) => r == StartupPhase::PreparingGit { session, parts },
                    Err(e) => (r matches StartupPhase::Failed { error, to_cancel } && error == e
                        && to_cancel@.len() == 0),
                },
                _ => false,
            },
    {
        match self {
            StartupPhase::Joining { session } => {
                match join_startup_steps(renamed, sandbox, branch, context) {
                    Ok(parts) => StartupPhase::PreparingGit { session, parts },
                    Err(error) => StartupPhase::Failed { error, to_cancel: Vec::new() },
                }
            },
            _ => unreached(),
        }
    }

    /// Accept the version-control environment, validate the tool-provider
    /// configuration and assemble the builtin tool set. A setup failure or an
    /// empty provider command aborts with nothing to unwind.
    pub fn on_git_environment(
        self,
        cfg: &SessionConfig,
        outcome: Result<GitEnvironment, StartupError>,
    ) -> (r: StartupPhase)
        requires
            self is PreparingGit,
        ensures
            match self {
                StartupPhase::PreparingGit { session, parts } => match outcome {
                    Err(e) => (r matches StartupPhase::Failed { error, to_cancel } && error == e
                        && to_cancel@.len() == 0),
                    Ok(env) => {
                        if exists|k: int| is_first_empty_command(cfg.tool_providers@, k) {
                            r matches StartupPhase::Failed { error, to_cancel }
                                && (exists|k: int|
                                is_first_empty_command(cfg.tool_providers@, k) && (error
                                    matches StartupError::EmptyToolCommand(n) && n@
                                    == cfg.tool_providers@[k].name@)) && to_cancel@.len() == 0
                        } else {
                            r matches StartupPhase::StartingToolboxes {
                                session: s,
                                executor,
                                git_environment,
                                initial_context,
                                tools,
                            } && s == session && executor == parts.executor && git_environment
                                == env && initial_context == parts.initial_context
                                && tools.deep_view() == assembled_tool_names(cfg, true)
                        }
                    },
                },
                _ => false,
            },
    {
        match self {
            StartupPhase::PreparingGit { session, parts } => {
                let env = match outcome {
                    Ok(env) => env,
                    Err(error) => {
                        return StartupPhase::Failed { error, to_cancel: Vec::new() };
                    },
                };
                if let Err(error) = validate_tool_providers(&cfg.tool_providers) {
                    return StartupPhase::Failed { error, to_cancel: Vec::new() };
                }
                proof {
                    if exists|k: int| is_first_empty_command(cfg.tool_providers@, k) {
                        let k = choose|k: int| is_first_empty_command(cfg.tool_providers@, k);
                        assert(cfg.tool_providers@[k].command@.len() > 0);
                    }
                }
                let tools = available_builtin_tools(cfg, true);
                StartupPhase::StartingToolboxes {
                    session,
                    executor: parts.executor,
                    git_environment: env,
                    initial_context: parts.initial_context,
                    tools,
                }
            },
            _ => unreached(),
        }
    }

    /// Accept the toolbox startup outcomes. On total success the agent's tool
    /// list is selected by topology and the pipeline moves to the build; on
    /// any failure the error names the first failing provider and every
    /// already-started connection is handed back for unwinding.
    pub fn on_toolboxes(self, cfg: &SessionConfig, outcomes: &Vec<ProviderOutcome>) -> (r:
        StartupPhase)
        requires
            self is StartingToolboxes,
            cfg.tool_providers@.len() == outcomes@.len(),
        ensures
            match self {
                StartupPhase::StartingToolboxes {
                    session,
                    executor,
                    git_environment,
                    initial_context,
                    tools,
                } => {
                    if forall|i: int| 0 <= i < outcomes@.len() ==> outcomes@[i] is Started {
                        r matches StartupPhase::BuildingAgent {
                            session: s,
                            executor: x,
                            git_environment: g,
                            initial_context: c,
                            tools: t,
                            toolboxes,
                        } && s == session && x == executor && g == git_environment && c
                            == initial_context && toolboxes.deep_view() == started_toolboxes(
                            cfg.tool_providers@,
                            outcomes@,
                        ) && t.deep_view() == (match cfg.topology {
                            crate::config::AgentTopology::Coding => tools.deep_view(),
                            crate::config::AgentTopology::PlanAct => delegate_tool_set(
                                tools.deep_view(),
                            ),
                        })
                    } else {
                        r matches StartupPhase::Failed { error, to_cancel } && (exists|k: int|
                            is_first_failure(outcomes@, k) && (error
                                matches StartupError::ToolboxStart { provider, detail } && provider@
                                == cfg.tool_providers@[k].name@ && detail@
                                == outcomes@[k]->Failed_0@)) && to_cancel.deep_view()
                            == started_toolboxes(cfg.tool_providers@, outcomes@)
                    }
                },
                _ => false,
            },
    {
        match self {
            StartupPhase::StartingToolboxes {
                session,
                executor,
                git_environment,
                initial_context,
                tools,
            } => {
                match collect_toolboxes(&cfg.tool_providers, outcomes) {
                    Ok(toolboxes) => {
                        let selected = agent_tool_names(cfg, &tools);
                        StartupPhase::BuildingAgent {
                            session,
                            executor,
                            git_environment,
                            initial_context,
                            tools: selected,
                            toolboxes,
                        }
                    },
                    Err(failure) => StartupPhase::Failed {
                        error: failure.error,
                        to_cancel: failure.started,
                    },
                }
            },
            _ => unreached(),
        }
    }

    /// Accept the agent build's outcome: on success the live session exists,
    /// with a fresh cancellation controller at epoch zero; on failure — the
    /// build itself or the customization hook — every started toolbox
    /// connection is handed back for unwinding.
    pub fn on_agent_built(self, outcome: Result<AgentHandle, StartupError>) -> (r: StartupPhase)
        requires
            self is BuildingAgent,
        ensures
            match self {
                StartupPhase::BuildingAgent {
                    session,
                    executor,
                    git_environment,
                    initial_context,
                    tools,
                    toolboxes,
                } => match outcome {
                    Ok(agent) => (r matches StartupPhase::Ready { running } && running.session
                        == session && running.active_agent == agent && running.toolboxes
                        == toolboxes && running.executor == executor && running.git_environment
                        == git_environment && running.cancel == (CancelToken {
                        epoch: 0,
                        cancelled: false,
                    })),
                    Err(e) => (r matches StartupPhase::Failed { error, to_cancel } && error == e
                        && to_cancel == toolboxes),
                },
                _ => false,
            },
    {
        match self {
            StartupPhase::BuildingAgent {
                session,
                executor,
                git_environment,
                initial_context: _,
                tools: _,
                toolboxes,
            } => {
                match outcome {
                    Ok(agent) => StartupPhase::Ready {
                        running: RunningSession::new(
                            session,
                            agent,
                            toolboxes,
                            executor,
                            git_environment,
                        ),
                    },
                    Err(error) => StartupPhase::Failed { error, to_cancel: toolboxes },
                }
            },
            _ => unreached(),
        }
    }
}

} // verus!
