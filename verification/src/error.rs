//! Startup errors. Startup is all-or-nothing: any of these aborts the
//! pipeline before a running session exists, carrying enough context to
//! identify the failing stage.

use vstd::prelude::*;
use vstd::string::StringExecFns;

verus! {

/// Why session startup failed. Each variant identifies the failing stage;
/// the payload identifies the offending configuration or carries the
/// collaborator's own message.
#[derive(Debug)]
pub enum StartupError {
    /// The session descriptor could not be built: a required field is missing.
    MissingField(String),
    /// Deriving the chat title failed.
    Naming(String),
    /// The execution sandbox did not start.
    SandboxStart(String),
    /// Deriving the branch-style name failed.
    BranchName(String),
    /// The retrieval collaborator failed to return initial context.
    Retrieval(String),
    /// Establishing the version-control working environment failed.
    GitSetup(String),
    /// A configured tool provider has an empty invocation command; the payload
    /// names the provider.
    EmptyToolCommand(String),
    /// Spawning or handshaking a tool-provider connection failed; `provider`
    /// names the provider, `detail` is the collaborator's message.
    ToolboxStart { provider: String, detail: String },
    /// Finalizing the agent failed.
    AgentBuild(String),
    /// The caller-supplied build-customization hook failed.
    BuildHook(String),
}

/// The stage prefix of an error's description.
pub open spec fn stage_prefix(e: &StartupError) -> Seq<char> {
    match e {
        StartupError::MissingField(_) => "failed to build session: missing field "@,
        StartupError::Naming(_) => "failed to derive chat title: "@,
        StartupError::SandboxStart(_) => "failed to start execution sandbox: "@,
        StartupError::BranchName(_) => "failed to derive branch name: "@,
        StartupError::Retrieval(_) => "failed to retrieve initial context: "@,
        StartupError::GitSetup(_) => "failed to set up git environment: "@,
        StartupError::EmptyToolCommand(_) => "empty command for tool provider "@,
        StartupError::ToolboxStart { .. } => "failed to start tool provider "@,
        StartupError::AgentBuild(_) => "failed to build agent: "@,
        StartupError::BuildHook(_) => "agent build hook failed: "@,
    }
}

/// The full contextual description of an error: the stage prefix followed by
/// the offending name or the collaborator's message.
pub open spec fn description_of(e: &StartupError) -> Seq<char> {
    match e {
        StartupError::MissingField(d) => stage_prefix(e) + d@,
        StartupError::Naming(d) => stage_prefix(e) + d@,
        StartupError::SandboxStart(d) => stage_prefix(e) + d@,
        StartupError::BranchName(d) => stage_prefix(e) + d@,
        StartupError::Retrieval(d) => stage_prefix(e) + d@,
        StartupError::GitSetup(d) => stage_prefix(e) + d@,
        StartupError::EmptyToolCommand(d) => stage_prefix(e) + d@,
        StartupError::ToolboxStart { provider, detail } => stage_prefix(e) + provider@ + ": "@
            + detail@,
        StartupError::AgentBuild(d) => stage_prefix(e) + d@,
        StartupError::BuildHook(d) => stage_prefix(e) + d@,
    }
}

impl StartupError {
    /// Render the error as a single contextual line naming the failing stage.
    pub fn describe(&self) -> (r: String)
        ensures
            r@ == description_of(self),
    {
        match self {
            StartupError::MissingField(d) => {
                let mut s = String::from_str("failed to build session: missing field ");
                s.append(d.as_str());
                s
            },
            StartupError::Naming(d) => {
                let mut s = String::from_str("failed to derive chat title: ");
                s.append(d.as_str());
                s
            },
            StartupError::SandboxStart(d) => {
                let mut s = String::from_str("failed to start execution sandbox: ");
                s.append(d.as_str());
                s
            },
            StartupError::BranchName(d) => {
                let mut s = String::from_str("failed to derive branch name: ");
                s.append(d.as_str());
                s
            },
            StartupError::Retrieval(d) => {
                let mut s = String::from_str("failed to retrieve initial context: ");
                s.append(d.as_str());
                s
            },
            StartupError::GitSetup(d) => {
                let mut s = String::from_str("failed to set up git environment: ");
                s.append(d.as_str());
                s
            },
            StartupError::EmptyToolCommand(d) => {
                let mut s = String::from_str("empty command for tool provider ");
                s.append(d.as_str());
                s
            },
            StartupError::ToolboxStart { provider, detail } => {
                let mut s = String::from_str("failed to start tool provider ");
                s.append(provider.as_str());
                s.append(": ");
                s.append(detail.as_str());
                s
            },
            StartupError::AgentBuild(d) => {
                let mut s = String::from_str("failed to build agent: ");
                s.append(d.as_str());
                s
            },
            StartupError::BuildHook(d) => {
                let mut s = String::from_str("agent build hook failed: ");
                s.append(d.as_str());
                s
            },
        }
    }
}

} // verus!
