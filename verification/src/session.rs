//! The session descriptor, its validating builder, and the control messages
//! that tools may send to a live session.

use vstd::prelude::*;
use vstd::string::StringExecFns;

use crate::error::StartupError;

verus! {

/// A cheap, copyable handle standing for one live agent instance.
///
/// The agent runtime that executes queries behind this handle is an external
/// collaborator; the orchestration layer only selects and swaps handles.
#[derive(Clone, Copy, PartialEq, Eq, Structural, Debug)]
pub struct AgentHandle {
    pub id: u64,
}

/// Messages that can be sent from e.g. a tool to an active session.
#[derive(Clone, Copy, PartialEq, Eq, Structural, Debug)]
pub enum SessionMessage {
    SwapAgent(AgentHandle),
}

/// The immutable identity of one session: created once per chat/task by the
/// validating builder, never mutated afterwards.
///
/// The owning repository handle, the output sink and the control-message
/// sender are runtime collaborators; the caller that builds the descriptor
/// owns them and creates exactly one control-message channel per successful
/// `build` — `build` consumes the builder, so the same builder state cannot
/// produce a second, duplicate channel pair.
#[derive(Debug)]
pub struct Session {
    pub session_id: u128,
    pub initial_query: String,
    /// Whether a build-customization hook was supplied; the hook itself runs
    /// in the caller just before the agent is finalized.
    pub has_build_hook: bool,
}

/// Accumulates a session's required and optional fields; `build` validates
/// them once and produces the immutable descriptor.
pub struct SessionBuilder {
    pub session_id: Option<u128>,
    pub initial_query: Option<String>,
    pub has_build_hook: bool,
}

impl Session {
    /// A builder with nothing set yet.
    pub fn builder() -> (r: SessionBuilder)
        ensures
            r.session_id is None,
            r.initial_query is None,
            !r.has_build_hook,
    {
        SessionBuilder { session_id: None, initial_query: None, has_build_hook: false }
    }
}

impl SessionBuilder {
    /// Set the unique session identifier.
    pub fn session_id(self, id: u128) -> (r: Self)
        ensures
            r.session_id == Some(id),
            r.initial_query == self.initial_query,
            r.has_build_hook == self.has_build_hook,
    {
        SessionBuilder { session_id: Some(id), ..self }
    }

    /// Set the initial natural-language request.
    pub fn initial_query(self, query: String) -> (r: Self)
        ensures
            r.initial_query == Some(query),
            r.session_id == self.session_id,
            r.has_build_hook == self.has_build_hook,
    {
        SessionBuilder { initial_query: Some(query), ..self }
    }

    /// Record whether a build-customization hook was supplied.
    pub fn build_hook(self, has_hook: bool) -> (r: Self)
        ensures
            r.has_build_hook == has_hook,
            r.session_id == self.session_id,
            r.initial_query == self.initial_query,
    {
        SessionBuilder { has_build_hook: has_hook, ..self }
    }

    /// Validate the accumulated fields and produce the immutable descriptor.
    ///
    /// Succeeds if and only if both required fields were set; otherwise the
    /// error names the first missing field. Consuming the builder here is
    /// what keeps the descriptor-to-channel correspondence one-to-one.
    pub fn build(self) -> (r: Result<Session, StartupError>)
        ensures
            match r {
                Ok(s) => {
                    &&& self.session_id is Some
                    &&& self.initial_query is Some
                    &&& s.session_id == self.session_id->Some_0
                    &&& s.initial_query == self.initial_query->Some_0
                    &&& s.has_build_hook == self.has_build_hook
                },
                Err(e) => {
                    &&& (self.session_id is None || self.initial_query is None)
                    &&& (e matches StartupError::MissingField(f) && f@ == (
                    if self.session_id is None {
                        "session_id"@
                    } else {
                        "initial_query"@
                    }))
                },
            },
    {
        let id = match self.session_id {
            Some(id) => id,
            None => {
                return Err(StartupError::MissingField(String::from_str("session_id")));
            },
        };
        let query = match self.initial_query {
            Some(q) => q,
            None => {
                return Err(StartupError::MissingField(String::from_str("initial_query")));
            },
        };
        Ok(Session { session_id: id, initial_query: query, has_build_hook: self.has_build_hook })
    }
}

} // verus!
