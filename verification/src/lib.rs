//! Session orchestration: assembling an agent's tool set from configuration,
//! running the concurrent startup pipeline, managing the live session's
//! active-agent slot and control messages, and tearing down external toolbox
//! connections.

pub mod config;
pub mod delegate;
pub mod error;
pub mod pipeline;
pub mod running;
pub mod session;
pub mod startup;
pub mod toolbox;
pub mod tools;

pub use config::AgentEditMode;
pub use config::AgentTopology;
pub use config::EnvVar;
pub use config::SessionConfig;
pub use config::ToolProviderConfig;
pub use delegate::agent_tool_names;
pub use delegate::delegate_tool_names;
pub use delegate::delegate_tool_spec;
pub use delegate::DelegateToolSpec;
pub use delegate::ToolParam;
pub use error::StartupError;
pub use pipeline::begin_startup;
pub use pipeline::StartupPhase;
pub use running::replay_slot_ops;
pub use running::CancelToken;
pub use running::GitEnvironment;
pub use running::RunningSession;
pub use running::SandboxHandle;
pub use running::SlotOp;
pub use session::AgentHandle;
pub use session::Session;
pub use session::SessionBuilder;
pub use session::SessionMessage;
pub use startup::format_initial_context;
pub use startup::join_startup_steps;
pub use startup::StartupParts;
pub use toolbox::collect_toolboxes;
pub use toolbox::run_teardown;
pub use toolbox::validate_tool_providers;
pub use toolbox::ProviderOutcome;
pub use toolbox::TeardownReport;
pub use toolbox::Toolbox;
pub use toolbox::ToolboxFailure;
pub use tools::available_builtin_tools;
pub use tools::filter_tool_names;
