//! The adapter for OpenRouter, which speaks OpenAI's protocol and asks each
//! client to say who it is.

use crate::error::{AgentError, Failure};
use crate::message::{Completion, CompletionView, Message, MessageView};
use crate::providers::{
    active_model, build_openai_body, choose_model, header, headers_view, openai_body,
    openai_response, read_openai_response, Adapter, HttpRequest, HttpRequestView,
};
use crate::providers::openai::bearer;
use crate::text::joined;
use crate::tool::{ToolDecl, ToolDeclView};
use vstd::prelude::*;
use vstd::string::StringExecFns;

verus! {

/// The address of OpenRouter's chat-completions API.
pub open spec fn openrouter_url() -> Seq<char> {
    "https://openrouter.ai/api/v1/chat/completions"@
}

/// The headers of a request to OpenRouter: the bearer key, and the two by
/// which this client says who it is.
pub open spec fn openrouter_headers(api_key: Seq<char>) -> Seq<(Seq<char>, Seq<char>)> {
    seq![
        bearer(api_key),
        ("HTTP-Referer"@, "https://github.com/RajMandaliya/mini-agent"@),
        ("X-Title"@, "mini-agent"@),
    ]
}

/// The adapter for OpenRouter.
#[derive(Debug)]
pub struct OpenRouterProvider {
    pub api_key: String,
    pub model: String,
}

impl OpenRouterProvider {
    /// An adapter that authenticates with `api_key` and asks for `model`
    /// where a request names none.
    pub fn new(api_key: &str, model: &str) -> (out: OpenRouterProvider)
        ensures
            out.api_key@ == api_key@,
            out.model@ == model@,
    {
        OpenRouterProvider { api_key: String::from_str(api_key), model: String::from_str(model) }
    }
}

impl Adapter for OpenRouterProvider {
    open spec fn name(&self) -> Seq<char> {
        "OpenRouter"@
    }

    open spec fn request_for(
        &self,
        messages: Seq<MessageView>,
        tools: Seq<ToolDeclView>,
        model: Seq<char>,
    ) -> HttpRequestView {
        HttpRequestView {
            url: openrouter_url(),
            headers: openrouter_headers(self.api_key@),
            body: openai_body(active_model(model, self.model@), messages, tools),
        }
    }

    open spec fn response_for(&self, status: u16, body: Seq<char>) -> Result<
        CompletionView,
        Failure,
    > {
        openai_response("OpenRouter"@, status, body)
    }

    open spec fn unreachable_for(&self, cause: Seq<char>) -> Failure {
        Failure::LlmError(cause)
    }

    fn provider_name(&self) -> &'static str {
        "OpenRouter"
    }

    fn request(&self, messages: &[Message], tools: &[ToolDecl], model: &str) -> HttpRequest {
        let mut headers: Vec<(String, String)> = Vec::new();
        assert(headers_view(headers@) =~= Seq::empty());
        let key = joined("Bearer ", self.api_key.as_str());
        header(&mut headers, "Authorization", key.as_str());
        header(&mut headers, "HTTP-Referer", "https://github.com/RajMandaliya/mini-agent");
        header(&mut headers, "X-Title", "mini-agent");
        assert(headers_view(headers@) =~= openrouter_headers(self.api_key@));
        HttpRequest {
            url: String::from_str("https://openrouter.ai/api/v1/chat/completions"),
            headers,
            body: build_openai_body(choose_model(model, self.model.as_str()), messages, tools),
        }
    }

    fn response(&self, status: u16, body: &str) -> Result<Completion, AgentError> {
        read_openai_response("OpenRouter", status, body)
    }

    /// A request that could not be sent fails with
    /// [`AgentError::LlmError`].
    fn unreachable(&self, cause: &str) -> AgentError {
        AgentError::LlmError(String::from_str(cause))
    }
}

} // verus!
