//! The ways in which a run can fail.

use crate::codec::{error_message, error_text};
use crate::text::joined;
use vstd::prelude::*;
use vstd::std_specs::convert::FromSpecImpl;
use vstd::string::StringExecFns;

verus! {

/// Why a run, or one exchange of it, failed. Each variant but the last carries
/// a message.
#[derive(Debug)]
pub enum AgentError {
    /// The request did not reach the backend, or no response came back.
    LlmError(String),
    /// Text that should have been JSON was not.
    Json(String),
    /// Well-formed JSON that lacks a field the protocol requires.
    InvalidResponse(String),
    /// The backend refused the request, or answered with nothing.
    ProviderError(String),
    /// The backend asked for a tool that is not registered; carries its name.
    ToolNotFound(String),
    /// A tool rejected its arguments or failed.
    ToolError(String),
    /// The bound on the number of steps was reached.
    MaxIterations,
}

/// An [`AgentError`] with its message as a sequence of characters.
pub ghost enum Failure {
    LlmError(Seq<char>),
    Json(Seq<char>),
    InvalidResponse(Seq<char>),
    ProviderError(Seq<char>),
    ToolNotFound(Seq<char>),
    ToolError(Seq<char>),
    MaxIterations,
}

impl View for AgentError {
    type V = Failure;

    open spec fn view(&self) -> Failure {
        match self {
            AgentError::LlmError(m) => Failure::LlmError(m@),
            AgentError::Json(m) => Failure::Json(m@),
            AgentError::InvalidResponse(m) => Failure::InvalidResponse(m@),
            AgentError::ProviderError(m) => Failure::ProviderError(m@),
            AgentError::ToolNotFound(m) => Failure::ToolNotFound(m@),
            AgentError::ToolError(m) => Failure::ToolError(m@),
            AgentError::MaxIterations => Failure::MaxIterations,
        }
    }
}

impl Failure {
    /// The line of text that describes the failure.
    pub open spec fn describe(self) -> Seq<char> {
        match self {
            Failure::LlmError(m) => "LLM request failed: "@ + m,
            Failure::Json(m) => "JSON error: "@ + m,
            Failure::InvalidResponse(m) => "Invalid response from LLM: "@ + m,
            Failure::ProviderError(m) => "Provider error: "@ + m,
            Failure::ToolNotFound(m) => "Tool not found: "@ + m,
            Failure::ToolError(m) => "Tool execution failed: "@ + m,
            Failure::MaxIterations => "Max iterations reached"@,
        }
    }

    /// The failure with `prefix` put before its message. The one failure
    /// without a message stays as it is.
    pub open spec fn prefixed(self, prefix: Seq<char>) -> Failure {
        match self {
            Failure::LlmError(m) => Failure::LlmError(prefix + m),
            Failure::Json(m) => Failure::Json(prefix + m),
            Failure::InvalidResponse(m) => Failure::InvalidResponse(prefix + m),
            Failure::ProviderError(m) => Failure::ProviderError(prefix + m),
            Failure::ToolNotFound(m) => Failure::ToolNotFound(prefix + m),
            Failure::ToolError(m) => Failure::ToolError(prefix + m),
            Failure::MaxIterations => Failure::MaxIterations,
        }
    }
}

impl Clone for AgentError {
    fn clone(&self) -> (out: AgentError)
        ensures
            out@ == self@,
    {
        match self {
            AgentError::LlmError(m) => AgentError::LlmError(m.clone()),
            AgentError::Json(m) => AgentError::Json(m.clone()),
            AgentError::InvalidResponse(m) => AgentError::InvalidResponse(m.clone()),
            AgentError::ProviderError(m) => AgentError::ProviderError(m.clone()),
            AgentError::ToolNotFound(m) => AgentError::ToolNotFound(m.clone()),
            AgentError::ToolError(m) => AgentError::ToolError(m.clone()),
            AgentError::MaxIterations => AgentError::MaxIterations,
        }
    }
}

impl AgentError {
    /// The line of text that describes the error.
    pub fn to_string(&self) -> (out: String)
        ensures
            out@ == self@.describe(),
    {
        match self {
            AgentError::LlmError(m) => joined("LLM request failed: ", m.as_str()),
            AgentError::Json(m) => joined("JSON error: ", m.as_str()),
            AgentError::InvalidResponse(m) => joined("Invalid response from LLM: ", m.as_str()),
            AgentError::ProviderError(m) => joined("Provider error: ", m.as_str()),
            AgentError::ToolNotFound(m) => joined("Tool not found: ", m.as_str()),
            AgentError::ToolError(m) => joined("Tool execution failed: ", m.as_str()),
            AgentError::MaxIterations => String::from_str("Max iterations reached"),
        }
    }

    /// The error with `prefix` put before its message.
    pub fn prefixed(self, prefix: &str) -> (out: AgentError)
        ensures
            out@ == self@.prefixed(prefix@),
    {
        match self {
            AgentError::LlmError(m) => AgentError::LlmError(joined(prefix, m.as_str())),
            AgentError::Json(m) => AgentError::Json(joined(prefix, m.as_str())),
            AgentError::InvalidResponse(m) => AgentError::InvalidResponse(
                joined(prefix, m.as_str()),
            ),
            AgentError::ProviderError(m) => AgentError::ProviderError(joined(prefix, m.as_str())),
            AgentError::ToolNotFound(m) => AgentError::ToolNotFound(joined(prefix, m.as_str())),
            AgentError::ToolError(m) => AgentError::ToolError(joined(prefix, m.as_str())),
            AgentError::MaxIterations => AgentError::MaxIterations,
        }
    }
}

impl From<serde_json::Error> for AgentError {
    /// A failure to read JSON becomes [`AgentError::Json`] with the reader's
    /// own message.
    fn from(error: serde_json::Error) -> (out: AgentError)
        ensures
            out@ == Failure::Json(error_message(error)),
    {
        AgentError::Json(error_text(&error))
    }
}

impl FromSpecImpl<serde_json::Error> for AgentError {
    open spec fn obeys_from_spec() -> bool {
        false
    }

    open spec fn from_spec(error: serde_json::Error) -> AgentError {
        AgentError::MaxIterations
    }
}

} // verus!
