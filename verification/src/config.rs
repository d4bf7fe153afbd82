//! Configuration that drives tool-set assembly, delegation topology and
//! external toolbox startup. All of it is plain data: the orchestration
//! decisions below are pure functions of these values.

use vstd::prelude::*;

verus! {

/// How the agent is allowed to edit files: exactly one editing tool group is
/// selected by this setting.
#[derive(Clone, Copy, PartialEq, Eq, Structural, Debug)]
pub enum AgentEditMode {
    /// Whole-file rewrite.
    Whole,
    /// Line-numbered read plus line insert/replace.
    Line,
    /// Line-numbered read plus patch apply.
    Patch,
}

/// Which agent topology the session builds.
#[derive(Clone, Copy, PartialEq, Eq, Structural, Debug)]
pub enum AgentTopology {
    /// One agent with the full tool set.
    Coding,
    /// An outer planning agent that delegates mutation to an inner agent.
    PlanAct,
}

/// One configured external tool provider, started as a subprocess and
/// connected through a handshake.
pub struct ToolProviderConfig {
    /// Display name of the provider; names the provider in startup errors and
    /// overrides the connection's name.
    pub name: String,
    /// The invocation command; must be non-empty for the provider to start.
    pub command: String,
    pub args: Vec<String>,
    /// Environment variables handed to the subprocess at spawn time.
    pub env: Vec<EnvVar>,
    /// Optional restriction of which remote tools the connection exposes.
    pub filter: Option<Vec<String>>,
}

/// One environment variable for a spawned tool provider. The value is a
/// secret: it is exposed only at spawn time and never logged.
pub struct EnvVar {
    pub key: String,
    pub value: String,
}

/// The configuration slice that tool-set assembly and toolbox startup read.
pub struct SessionConfig {
    pub edit_mode: AgentEditMode,
    pub topology: AgentTopology,
    /// A code-hosting integration is configured.
    pub github_enabled: bool,
    /// A web-search provider key is configured.
    pub web_search_enabled: bool,
    /// Command that runs the test suite, if configured.
    pub test_command: Option<String>,
    /// Command that runs coverage, if configured.
    pub coverage_command: Option<String>,
    /// Names of tools to remove from the assembled set.
    pub disabled_tools: Vec<String>,
    /// External tool providers to start.
    pub tool_providers: Vec<ToolProviderConfig>,
}

} // verus!
