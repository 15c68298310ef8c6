//! Backends, and what the OpenAI-shaped ones have in common.
//!
//! An adapter does the two halves of an exchange that are computation: it
//! builds the request for a conversation, and it reads the completion out of
//! the response. Sending the one and receiving the other is left to the
//! caller.

pub mod anthropic;
pub mod ollama;
pub mod openai;
pub mod openrouter;

use crate::codec::{json_decode, parsed};
use crate::error::{AgentError, Failure};
use crate::json::{append, found_view, items_view, put, Json, JsonValue, NumberView};
use crate::message::{
    calls_view, messages_view, Completion, CompletionView, Message, MessageView, ToolCall,
    ToolCallView,
};
use crate::seq_lemmas::{lemma_map_push, lemma_map_step};
use crate::text::{decimal, format_u64, joined};
use crate::tool::{declare, decls_view, Tool, ToolDecl, ToolDeclView};
use vstd::prelude::*;
use vstd::string::StringExecFns;

verus! {

/// A backend: given a conversation and the tools on offer, it answers with
/// text, with requests to run tools, or it fails.
pub trait LlmProvider: Send + Sync {
    /// The name by which failures of this backend are reported.
    fn provider_name(&self) -> &str;

    fn complete(&self, messages: &[Message], tools: &[&dyn Tool], model: &str) -> Result<
        Completion,
        AgentError,
    >;
}

/// A boxed backend is a backend: each method hands on what the backend in
/// the box returns for the same arguments.
impl<P: LlmProvider + ?Sized> LlmProvider for Box<P> {
    fn provider_name(&self) -> (out: &str)
        ensures
            call_ensures(P::provider_name, (&**self,), out),
    {
        (**self).provider_name()
    }

    fn complete(&self, messages: &[Message], tools: &[&dyn Tool], model: &str) -> (out: Result<
        Completion,
        AgentError,
    >)
        ensures
            call_ensures(P::complete, (&**self, messages, tools, model), out),
    {
        (**self).complete(messages, tools, model)
    }
}

/// The two halves of an exchange with a backend that are computation.
/// Each adapter says in its specification functions what it builds and
/// what it reads; the methods compute exactly that.
pub trait Adapter {
    /// The name by which failures of this backend are reported.
    spec fn name(&self) -> Seq<char>;

    /// The request for a conversation, the tools on offer and a model.
    spec fn request_for(
        &self,
        messages: Seq<MessageView>,
        tools: Seq<ToolDeclView>,
        model: Seq<char>,
    ) -> HttpRequestView;

    /// What a response with this status and this body comes to.
    spec fn response_for(&self, status: u16, body: Seq<char>) -> Result<CompletionView, Failure>;

    /// The failure for a request that could not be sent.
    spec fn unreachable_for(&self, cause: Seq<char>) -> Failure;

    /// The name by which failures of this backend are reported.
    fn provider_name(&self) -> (out: &'static str)
        ensures
            out@ == self.name(),
    ;

    /// The request that asks the backend to continue `messages`, with
    /// `tools` on offer. An empty `model` stands for the adapter's own.
    fn request(&self, messages: &[Message], tools: &[ToolDecl], model: &str) -> (out: HttpRequest)
        ensures
            out@ == self.request_for(messages_view(messages@), decls_view(tools@), model@),
    ;

    /// The completion in the response with status `status` and body `body`.
    fn response(&self, status: u16, body: &str) -> (out: Result<Completion, AgentError>)
        ensures
            completion_view(out) == self.response_for(status, body@),
    ;

    /// The failure to report where the request could not be sent or no
    /// response came; `cause` says why.
    fn unreachable(&self, cause: &str) -> (out: AgentError)
        ensures
            out@ == self.unreachable_for(cause@),
    ;
}

/// A request to be sent with the method POST.
#[derive(Debug)]
pub struct HttpRequest {
    pub url: String,
    pub headers: Vec<(String, String)>,
    pub body: Json,
}

/// An [`HttpRequest`] by what it holds.
pub ghost struct HttpRequestView {
    pub url: Seq<char>,
    pub headers: Seq<(Seq<char>, Seq<char>)>,
    pub body: JsonValue,
}

/// A list of headers, each as a pair of texts.
pub open spec fn headers_view(headers: Seq<(String, String)>) -> Seq<(Seq<char>, Seq<char>)> {
    headers.map_values(|h: (String, String)| (h.0@, h.1@))
}

impl View for HttpRequest {
    type V = HttpRequestView;

    open spec fn view(&self) -> HttpRequestView {
        HttpRequestView {
            url: self.url@,
            headers: headers_view(self.headers@),
            body: self.body@,
        }
    }
}

/// Adds the header `name: value`.
pub fn header(headers: &mut Vec<(String, String)>, name: &str, value: &str)
    ensures
        headers_view(final(headers)@) == headers_view(old(headers)@).push((name@, value@)),
{
    let entry = (String::from_str(name), String::from_str(value));
    proof {
        lemma_map_push(headers@, entry, |h: (String, String)| (h.0@, h.1@));
    }
    headers.push(entry);
}

/// The outcome of reading a completion, by its view.
pub open spec fn completion_view(outcome: Result<Completion, AgentError>) -> Result<
    CompletionView,
    Failure,
> {
    match outcome {
        Ok(completion) => Ok(completion@),
        Err(error) => Err(error@),
    }
}

/// The model that a request names: the one asked for, or the adapter's own
/// where none is asked for.
pub open spec fn active_model(asked: Seq<char>, default: Seq<char>) -> Seq<char> {
    if asked.len() == 0 {
        default
    } else {
        asked
    }
}

/// The model that a request names.
pub fn choose_model<'a>(asked: &'a str, default: &'a str) -> (out: &'a str)
    ensures
        out@ == active_model(asked@, default@),
{
    if asked.is_empty() {
        default
    } else {
        asked
    }
}

/// Whether a status code reports success.
pub open spec fn is_success(status: u16) -> bool {
    200 <= status < 300
}

/// The failure that reports a status other than success, with the body of
/// the response as it came.
pub open spec fn refusal(provider: Seq<char>, status: u16, body: Seq<char>) -> Failure {
    Failure::ProviderError(provider + " "@ + decimal(status as nat) + ": "@ + body)
}

/// The failure that reports a status other than success.
pub fn refuse(provider: &str, status: u16, body: &str) -> (out: AgentError)
    ensures
        out@ == refusal(provider@, status, body@),
{
    let mut message = joined(provider, " ");
    let code = format_u64(status as u64);
    message.append(code.as_str());
    message.append(": ");
    message.append(body);
    AgentError::ProviderError(message)
}

/// One turn as the OpenAI-shaped backends take it: role and content, the id
/// of the call that it answers where it has one, and the calls that it
/// requested where it recorded any.
pub open spec fn openai_message(message: MessageView) -> JsonValue {
    let base = map![
        "role"@ => JsonValue::text(message.role.token()),
        "content"@ => JsonValue::text(message.content)
    ];
    let answered = match message.tool_call_id {
        Some(id) => base.insert("tool_call_id"@, JsonValue::text(id)),
        None => base,
    };
    let requested = match message.tool_calls {
        Some(calls) => if calls is Null {
            answered
        } else {
            answered.insert("tool_calls"@, calls)
        },
        None => answered,
    };
    JsonValue::Object(requested)
}

/// A conversation as the OpenAI-shaped backends take it.
pub open spec fn openai_messages(messages: Seq<MessageView>) -> Seq<JsonValue> {
    messages.map_values(|m: MessageView| openai_message(m))
}

/// One turn as the OpenAI-shaped backends take it.
pub fn build_openai_message(message: &Message) -> (out: Json)
    ensures
        out@ == openai_message(message@),
{
    let mut fields: Vec<(String, Json)> = Vec::new();
    put(&mut fields, "role", Json::text(message.role.as_str()));
    put(&mut fields, "content", Json::text(message.content.as_str()));
    match &message.tool_call_id {
        Some(id) => {
            put(&mut fields, "tool_call_id", Json::text(id.as_str()));
        },
        None => {},
    }
    match &message.tool_calls {
        Some(calls) => {
            if !calls.is_null() {
                put(&mut fields, "tool_calls", calls.clone());
            }
        },
        None => {},
    }
    Json::Object(fields)
}

/// A conversation as the OpenAI-shaped backends take it: one object for
/// each turn, in order.
pub fn build_openai_messages(messages: &[Message]) -> (out: Vec<Json>)
    ensures
        items_view(out@) == openai_messages(messages_view(messages@)),
{
    let mut out: Vec<Json> = Vec::new();
    let mut i: usize = 0;
    assert(messages@.take(0) =~= Seq::empty());
    assert(items_view(out@) =~= openai_messages(messages_view(messages@.take(0))));
    while i < messages.len()
        invariant
            i <= messages.len(),
            items_view(out@) == openai_messages(messages_view(messages@.take(i as int))),
        decreases messages.len() - i,
    {
        let item = build_openai_message(&messages[i]);
        proof {
            lemma_map_step(messages@, i as int, |m: Message| m@);
            lemma_map_push(
                messages_view(messages@.take(i as int)),
                messages@[i as int]@,
                |m: MessageView| openai_message(m),
            );
        }
        append(&mut out, item);
        i += 1;
    }
    assert(messages@.take(i as int) =~= messages@);
    out
}

/// The declaration of one tool as the OpenAI-shaped backends take it.
pub open spec fn openai_tool(decl: ToolDeclView) -> JsonValue {
    JsonValue::Object(
        map![
            "type"@ => JsonValue::text("function"@),
            "function"@ => JsonValue::Object(
                map![
                    "name"@ => JsonValue::text(decl.name),
                    "description"@ => JsonValue::text(decl.description),
                    "parameters"@ => decl.parameters
                ],
            )
        ],
    )
}

/// The declarations of a list of tools as the OpenAI-shaped backends take
/// them.
pub open spec fn openai_tools(decls: Seq<ToolDeclView>) -> Seq<JsonValue> {
    decls.map_values(|d: ToolDeclView| openai_tool(d))
}

/// The declaration of one tool as the OpenAI-shaped backends take it.
pub fn build_openai_tool(decl: &ToolDecl) -> (out: Json)
    ensures
        out@ == openai_tool(decl@),
{
    let mut function: Vec<(String, Json)> = Vec::new();
    put(&mut function, "name", Json::text(decl.name.as_str()));
    put(&mut function, "description", Json::text(decl.description.as_str()));
    put(&mut function, "parameters", decl.parameters.clone());
    let mut fields: Vec<(String, Json)> = Vec::new();
    put(&mut fields, "type", Json::text("function"));
    put(&mut fields, "function", Json::Object(function));
    Json::Object(fields)
}

/// The declarations of tools, already taken down, as the OpenAI-shaped
/// backends take them.
pub fn encode_openai_tools(decls: &[ToolDecl]) -> (out: Vec<Json>)
    ensures
        items_view(out@) == openai_tools(decls_view(decls@)),
{
    let mut out: Vec<Json> = Vec::new();
    let mut i: usize = 0;
    assert(decls@.take(0) =~= Seq::empty());
    assert(items_view(out@) =~= openai_tools(decls_view(decls@.take(0))));
    while i < decls.len()
        invariant
            i <= decls.len(),
            items_view(out@) == openai_tools(decls_view(decls@.take(i as int))),
        decreases decls.len() - i,
    {
        let item = build_openai_tool(&decls[i]);
        proof {
            lemma_map_step(decls@, i as int, |d: ToolDecl| d@);
            lemma_map_push(
                decls_view(decls@.take(i as int)),
                decls@[i as int]@,
                |d: ToolDeclView| openai_tool(d),
            );
        }
        append(&mut out, item);
        i += 1;
    }
    assert(decls@.take(i as int) =~= decls@);
    out
}

/// Asks each tool for its name, description and schema, and declares it as
/// the OpenAI-shaped backends take it: the result is the encoding of one
/// declaration for each tool, whatever the tools answered.
pub fn build_openai_tools(tools: &[&dyn Tool]) -> (out: Vec<Json>)
    ensures
        exists|decls: Seq<ToolDeclView>|
            decls.len() == tools.len() && items_view(out@) == #[trigger] openai_tools(decls),
{
    let decls = declare(tools);
    let out = encode_openai_tools(decls.as_slice());
    assert(items_view(out@) == openai_tools(decls_view(decls@)));
    out
}

/// The text of a string document, and the empty text for anything else.
pub open spec fn text_or_empty(found: Option<JsonValue>) -> Seq<char> {
    match found {
        Some(JsonValue::String(text)) => text,
        _ => Seq::empty(),
    }
}

/// The text of a string document, and the empty text for anything else.
pub fn string_or_empty(found: Option<&Json>) -> (out: String)
    ensures
        out@ == text_or_empty(found_view(found)),
{
    match found {
        Some(value) => match value.as_str() {
            Some(text) => String::from_str(text),
            None => String::new(),
        },
        None => String::new(),
    }
}

/// The arguments of a call from their encoding: a string is read as JSON
/// text, anything else is the arguments themselves.
pub open spec fn decoded_args(raw: JsonValue) -> Result<JsonValue, Failure> {
    match raw {
        JsonValue::String(text) => parsed(text),
        _ => Ok(raw),
    }
}

/// The outcome of decoding arguments, by its view.
pub open spec fn args_view(outcome: Result<Json, AgentError>) -> Result<JsonValue, Failure> {
    match outcome {
        Ok(value) => Ok(value@),
        Err(error) => Err(error@),
    }
}

/// Decodes the arguments of a call, which a backend may send as an object
/// or as a string that holds JSON text. Fails with [`AgentError::Json`]
/// where such a string is not JSON.
pub fn decode_args(raw: &Json) -> (out: Result<Json, AgentError>)
    ensures
        args_view(out) == decoded_args(raw@),
{
    match raw.as_str() {
        Some(text) => Json::parse(text),
        None => Ok(raw.clone()),
    }
}

/// The failure for well-formed JSON that lacks what the protocol requires.
pub open spec fn malformed(what: Seq<char>) -> Failure {
    Failure::InvalidResponse(what)
}

fn unexpected(what: &str) -> (out: AgentError)
    ensures
        out@ == malformed(what@),
{
    AgentError::InvalidResponse(String::from_str(what))
}

/// One requested call, read from the OpenAI-shaped encoding
/// `{id, function: {name, arguments}}`. An id or a name that is missing or
/// no string counts as empty.
pub open spec fn openai_call(call: JsonValue) -> Result<ToolCallView, Failure> {
    match call.get("function"@) {
        None => Err(malformed("missing function in tool call"@)),
        Some(function) => match function.get("arguments"@) {
            None => Err(malformed("missing arguments"@)),
            Some(raw) => match decoded_args(raw) {
                Err(failure) => Err(failure),
                Ok(args) => Ok(
                    ToolCallView {
                        id: text_or_empty(call.get("id"@)),
                        name: text_or_empty(function.get("name"@)),
                        args,
                    },
                ),
            },
        },
    }
}

/// The outcome of reading one call, by its view.
pub open spec fn call_view(outcome: Result<ToolCall, AgentError>) -> Result<ToolCallView, Failure> {
    match outcome {
        Ok(call) => Ok(call@),
        Err(error) => Err(error@),
    }
}

/// Reads one requested call from its OpenAI-shaped encoding.
pub fn parse_openai_call(call: &Json) -> (out: Result<ToolCall, AgentError>)
    ensures
        call_view(out) == openai_call(call@),
{
    let function = match call.get("function") {
        Some(function) => function,
        None => return Err(unexpected("missing function in tool call")),
    };
    let raw = match function.get("arguments") {
        Some(raw) => raw,
        None => return Err(unexpected("missing arguments")),
    };
    let args = match decode_args(raw) {
        Ok(args) => args,
        Err(error) => return Err(error),
    };
    Ok(
        ToolCall {
            id: string_or_empty(call.get("id")),
            name: string_or_empty(function.get("name")),
            args,
        },
    )
}

/// A result with `prefix` put before what it holds.
pub open spec fn after<T>(prefix: Seq<T>, rest: Result<Seq<T>, Failure>) -> Result<
    Seq<T>,
    Failure,
> {
    match rest {
        Ok(items) => Ok(prefix + items),
        Err(failure) => Err(failure),
    }
}

/// The requested calls, read in order. The first one that cannot be read
/// fails the whole list.
pub open spec fn openai_calls(calls: Seq<JsonValue>) -> Result<Seq<ToolCallView>, Failure>
    decreases calls.len(),
{
    if calls.len() == 0 {
        Ok(Seq::empty())
    } else {
        match openai_call(calls.first()) {
            Err(failure) => Err(failure),
            Ok(call) => after(seq![call], openai_calls(calls.drop_first())),
        }
    }
}

/// The outcome of reading a list of calls, by its view.
pub open spec fn calls_outcome_view(outcome: Result<Vec<ToolCall>, AgentError>) -> Result<
    Seq<ToolCallView>,
    Failure,
> {
    match outcome {
        Ok(calls) => Ok(calls_view(calls@)),
        Err(error) => Err(error@),
    }
}

/// Reads the requested calls in order, and fails on the first that cannot
/// be read.
pub fn parse_openai_calls(calls: &Vec<Json>) -> (out: Result<Vec<ToolCall>, AgentError>)
    ensures
        calls_outcome_view(out) == openai_calls(items_view(calls@)),
{
    let ghost docs = items_view(calls@);
    let mut out: Vec<ToolCall> = Vec::new();
    let mut i: usize = 0;
    proof {
        assert(docs.skip(0) =~= docs);
        assert(calls_view(out@) =~= Seq::empty());
        assert(after(calls_view(out@), openai_calls(docs)) == openai_calls(docs)) by {
            match openai_calls(docs) {
                Ok(items) => {
                    assert(Seq::<ToolCallView>::empty() + items =~= items);
                },
                Err(_) => {},
            }
        }
    }
    while i < calls.len()
        invariant
            i <= calls.len(),
            docs == items_view(calls@),
            openai_calls(docs) == after(calls_view(out@), openai_calls(docs.skip(i as int))),
        decreases calls.len() - i,
    {
        proof {
            assert(docs.skip(i as int).first() == calls@[i as int]@);
            assert(docs.skip(i as int).drop_first() =~= docs.skip(i as int + 1));
        }
        match parse_openai_call(&calls[i]) {
            Err(error) => {
                return Err(error);
            },
            Ok(call) => {
                proof {
                    lemma_map_push(out@, call, |c: ToolCall| c@);
                    match openai_calls(docs.skip(i as int + 1)) {
                        Ok(rest) => {
                            assert(calls_view(out@) + (seq![call@] + rest) =~= calls_view(
                                out@,
                            ).push(call@) + rest);
                        },
                        Err(_) => {},
                    }
                }
                out.push(call);
            },
        }
        i += 1;
    }
    proof {
        assert(docs.skip(i as int) =~= Seq::empty());
        assert(calls_view(out@) + Seq::<ToolCallView>::empty() =~= calls_view(out@));
    }
    Ok(out)
}

/// The first of the choices that a response offers.
pub open spec fn first_choice(response: JsonValue) -> Option<JsonValue> {
    match response.get("choices"@) {
        Some(JsonValue::Array(choices)) => if choices.len() > 0 {
            Some(choices[0])
        } else {
            None
        },
        _ => None,
    }
}

/// The completion that an OpenAI-shaped response holds: the content of the
/// first choice's message where it is a string, the calls that the message
/// requests, decoded, and the encoding of those calls as it came.
pub open spec fn openai_completion(response: JsonValue) -> Result<CompletionView, Failure> {
    match first_choice(response) {
        None => Err(malformed("missing 'choices'"@)),
        Some(choice) => match choice.get("message"@) {
            None => Err(malformed("missing 'message'"@)),
            Some(message) => {
                let requested = match message.get("tool_calls"@) {
                    Some(JsonValue::Array(calls)) => openai_calls(calls),
                    _ => Ok(Seq::empty()),
                };
                match requested {
                    Err(failure) => Err(failure),
                    Ok(calls) => Ok(
                        CompletionView {
                            content: match message.get("content"@) {
                                Some(JsonValue::String(text)) => Some(text),
                                _ => None,
                            },
                            tool_calls: calls,
                            raw_tool_calls: message.get("tool_calls"@),
                        },
                    ),
                }
            },
        },
    }
}

fn find_first_choice(response: &Json) -> (out: Option<&Json>)
    ensures
        found_view(out) == first_choice(response@),
{
    match response.get("choices") {
        Some(choices) => match choices.as_array() {
            Some(items) => if items.len() > 0 {
                Some(&items[0])
            } else {
                None
            },
            None => None,
        },
        None => None,
    }
}

/// Reads the completion out of an OpenAI-shaped response. Fails with
/// [`AgentError::InvalidResponse`] where the response has no first choice,
/// the choice no message, or a call no function or no arguments, and with
/// [`AgentError::Json`] where the arguments of a call are a string that is
/// not JSON.
pub fn parse_openai_completion(json: &Json) -> (out: Result<Completion, AgentError>)
    ensures
        completion_view(out) == openai_completion(json@),
{
    let choice = match find_first_choice(json) {
        Some(choice) => choice,
        None => return Err(unexpected("missing 'choices'")),
    };
    let message = match choice.get("message") {
        Some(message) => message,
        None => return Err(unexpected("missing 'message'")),
    };
    let raw = message.get("tool_calls");
    let tool_calls = match raw {
        Some(calls) => match calls.as_array() {
            Some(items) => match parse_openai_calls(items) {
                Ok(calls) => calls,
                Err(error) => return Err(error),
            },
            None => Vec::new(),
        },
        None => Vec::new(),
    };
    let content = match message.get("content") {
        Some(value) => match value.as_str() {
            Some(text) => Some(String::from_str(text)),
            None => None,
        },
        None => None,
    };
    let raw_tool_calls = match raw {
        Some(calls) => Some(calls.clone()),
        None => None,
    };
    proof {
        assert(calls_view(Seq::<ToolCall>::empty()) =~= Seq::empty());
    }
    Ok(Completion { content, tool_calls, raw_tool_calls })
}

/// The declarations of the tools on offer, or `null` where there are none.
pub open spec fn tools_or_null(tools: Seq<JsonValue>) -> JsonValue {
    if tools.len() == 0 {
        JsonValue::Null
    } else {
        JsonValue::Array(tools)
    }
}

fn array_or_null(tools: Vec<Json>) -> (out: Json)
    ensures
        out@ == tools_or_null(items_view(tools@)),
{
    if tools.len() == 0 {
        Json::Null
    } else {
        Json::Array(tools)
    }
}

/// The body of a chat-completions request: model, conversation, tools, and
/// the fixed settings of this crate.
pub open spec fn openai_body(
    model: Seq<char>,
    messages: Seq<MessageView>,
    tools: Seq<ToolDeclView>,
) -> JsonValue {
    JsonValue::Object(
        map![
            "model"@ => JsonValue::text(model),
            "messages"@ => JsonValue::Array(openai_messages(messages)),
            "tools"@ => tools_or_null(openai_tools(tools)),
            "tool_choice"@ => JsonValue::text("auto"@),
            "temperature"@ => JsonValue::Number(NumberView::Real("0.7"@)),
            "max_tokens"@ => JsonValue::integer(1024)
        ],
    )
}

/// The body of a chat-completions request.
pub fn build_openai_body(model: &str, messages: &[Message], tools: &[ToolDecl]) -> (out: Json)
    ensures
        out@ == openai_body(model@, messages_view(messages@), decls_view(tools@)),
{
    let mut fields: Vec<(String, Json)> = Vec::new();
    put(&mut fields, "model", Json::text(model));
    put(&mut fields, "messages", Json::Array(build_openai_messages(messages)));
    put(&mut fields, "tools", array_or_null(encode_openai_tools(tools)));
    put(&mut fields, "tool_choice", Json::text("auto"));
    put(&mut fields, "temperature", Json::literal("0.7"));
    put(&mut fields, "max_tokens", Json::integer(1024));
    Json::Object(fields)
}

/// What an OpenAI-shaped backend's response comes to: a refusal where the
/// status is not one of success, a failure to read where the body is not
/// JSON, and else the completion in it.
pub open spec fn openai_response(provider: Seq<char>, status: u16, body: Seq<char>) -> Result<
    CompletionView,
    Failure,
> {
    if !is_success(status) {
        Err(refusal(provider, status, body))
    } else {
        match json_decode(body) {
            Err(message) => Err(Failure::Json(message)),
            Ok(response) => openai_completion(response),
        }
    }
}

/// Reads the response of an OpenAI-shaped backend.
pub fn read_openai_response(provider: &str, status: u16, body: &str) -> (out: Result<
    Completion,
    AgentError,
>)
    ensures
        completion_view(out) == openai_response(provider@, status, body@),
{
    if status < 200 || status >= 300 {
        return Err(refuse(provider, status, body));
    }
    match Json::parse(body) {
        Err(error) => Err(error),
        Ok(response) => parse_openai_completion(&response),
    }
}

} // verus!
