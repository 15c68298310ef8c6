//! The adapter for OpenAI's chat-completions API.

use crate::error::{AgentError, Failure};
use crate::message::{Completion, CompletionView, Message, MessageView};
use crate::providers::{
    active_model, build_openai_body, choose_model, header, headers_view, openai_body,
    openai_response, read_openai_response, Adapter, HttpRequest, HttpRequestView,
};
use crate::text::joined;
use crate::tool::{ToolDecl, ToolDeclView};
use vstd::prelude::*;
use vstd::string::StringExecFns;

verus! {

/// The address of the chat-completions API.
pub open spec fn openai_url() -> Seq<char> {
    "https://api.openai.com/v1/chat/completions"@
}

/// The header that authenticates with a bearer key.
pub open spec fn bearer(api_key: Seq<char>) -> (Seq<char>, Seq<char>) {
    ("Authorization"@, "Bearer "@ + api_key)
}

/// The adapter for OpenAI's chat-completions API.
#[derive(Debug)]
pub struct OpenAiProvider {
    pub api_key: String,
    pub default_model: String,
}

impl OpenAiProvider {
    /// An adapter that authenticates with `api_key` and asks for `model`
    /// where a request names none.
    pub fn new(api_key: &str, model: &str) -> (out: OpenAiProvider)
        ensures
            out.api_key@ == api_key@,
            out.default_model@ == model@,
    {
        OpenAiProvider {
            api_key: String::from_str(api_key),
            default_model: String::from_str(model),
        }
    }
}

impl Adapter for OpenAiProvider {
    open spec fn name(&self) -> Seq<char> {
        "OpenAI"@
    }

    open spec fn request_for(
        &self,
        messages: Seq<MessageView>,
        tools: Seq<ToolDeclView>,
        model: Seq<char>,
    ) -> HttpRequestView {
        HttpRequestView {
            url: openai_url(),
            headers: seq![bearer(self.api_key@)],
            body: openai_body(active_model(model, self.default_model@), messages, tools),
        }
    }

    open spec fn response_for(&self, status: u16, body: Seq<char>) -> Result<
        CompletionView,
        Failure,
    > {
        openai_response("OpenAI"@, status, body)
    }

    open spec fn unreachable_for(&self, cause: Seq<char>) -> Failure {
        Failure::LlmError(cause)
    }

    fn provider_name(&self) -> &'static str {
        "OpenAI"
    }

    fn request(&self, messages: &[Message], tools: &[ToolDecl], model: &str) -> HttpRequest {
        let mut headers: Vec<(String, String)> = Vec::new();
        assert(headers_view(headers@) =~= Seq::empty());
        let key = joined("Bearer ", self.api_key.as_str());
        header(&mut headers, "Authorization", key.as_str());
        assert(headers_view(headers@) =~= seq![bearer(self.api_key@)]);
        HttpRequest {
            url: String::from_str("https://api.openai.com/v1/chat/completions"),
            headers,
            body: build_openai_body(
                choose_model(model, self.default_model.as_str()),
                messages,
                tools,
            ),
        }
    }

    fn response(&self, status: u16, body: &str) -> Result<Completion, AgentError> {
        read_openai_response("OpenAI", status, body)
    }

    /// A request that could not be sent fails with
    /// [`AgentError::LlmError`].
    fn unreachable(&self, cause: &str) -> AgentError {
        AgentError::LlmError(String::from_str(cause))
    }
}

} // verus!
