//! A bounded conversation loop between a caller and a language-model backend
//! that may ask for locally registered tools to be run before it answers.
//!
//! The crate holds the data model, the two wire adapters (OpenAI-shaped and
//! Anthropic-shaped) and the agent's control loop. Everything that touches the
//! network is left to the embedding program: adapters build requests and read
//! responses as plain values.

pub mod agent;
pub mod codec;
pub mod error;
pub mod json;
pub mod laws;
pub mod machine;
pub mod message;
pub mod providers;
pub mod seq_lemmas;
pub mod text;
pub mod tool;

pub use agent::Agent;
pub use error::{AgentError, Failure};
pub use json::{Json, JsonValue, Number, NumberView};
pub use providers::anthropic::AnthropicProvider;
pub use providers::ollama::OllamaProvider;
pub use providers::openai::OpenAiProvider;
pub use providers::openrouter::OpenRouterProvider;
pub use providers::{Adapter, HttpRequest, LlmProvider};
pub use tool::{AddNumbersTool, JokeTool, MultiplyNumbersTool, Tool, ToolDecl, ToolDeclView};
pub use message::{
    Completion, CompletionView, Message, MessageView, Role, ToolCall, ToolCallView,
};
