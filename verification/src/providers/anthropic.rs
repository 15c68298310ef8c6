//! The adapter for Anthropic's messages API, whose turns and tool calls are
//! shaped unlike the OpenAI ones: the result of a tool goes back as a user
//! turn, and an assistant turn that requested calls is a list of blocks.

use crate::codec::{json_decode, json_text};
use crate::error::{AgentError, Failure};
use crate::json::{append, items_view, put, Json, JsonValue};
use crate::message::{
    calls_view, messages_view, text_view, Completion, CompletionView, Message, MessageView, Role,
    ToolCall, ToolCallView,
};
use crate::providers::{
    active_model, choose_model, completion_view, decode_args, decoded_args, header, headers_view,
    is_success, malformed, refusal, refuse, string_or_empty, text_or_empty, Adapter, HttpRequest,
    HttpRequestView,
};
use crate::seq_lemmas::{lemma_map_push, lemma_map_step, lemma_take_step};
use crate::text::{joined, same_text};
use crate::tool::{decls_view, ToolDecl, ToolDeclView};
use vstd::prelude::*;
use vstd::string::StringExecFns;

verus! {

/// The user turn that carries the result `content` of the call `id`.
pub open spec fn tool_result_turn(id: Seq<char>, content: Seq<char>) -> JsonValue {
    JsonValue::Object(
        map![
            "role"@ => JsonValue::text("user"@),
            "content"@ => JsonValue::Array(
                seq![
                    JsonValue::Object(
                        map![
                            "type"@ => JsonValue::text("tool_result"@),
                            "tool_use_id"@ => JsonValue::text(id),
                            "content"@ => JsonValue::text(content)
                        ],
                    ),
                ],
            )
        ],
    )
}

/// A turn whose content is plain text.
pub open spec fn plain_turn(role: Seq<char>, content: Seq<char>) -> JsonValue {
    JsonValue::Object(
        map!["role"@ => JsonValue::text(role), "content"@ => JsonValue::text(content)],
    )
}

/// The block `{type: "text", text}`.
pub open spec fn text_block(text: Seq<char>) -> JsonValue {
    JsonValue::Object(
        map!["type"@ => JsonValue::text("text"@), "text"@ => JsonValue::text(text)],
    )
}

/// The block `{type: "tool_use", id, name, input}`.
pub open spec fn tool_use(id: Seq<char>, name: Seq<char>, input: JsonValue) -> JsonValue {
    JsonValue::Object(
        map![
            "type"@ => JsonValue::text("tool_use"@),
            "id"@ => JsonValue::text(id),
            "name"@ => JsonValue::text(name),
            "input"@ => input
        ],
    )
}

/// The `tool_use` block for a call recorded in the OpenAI shape. There is
/// none where the record lacks an id or a name that is a string, lacks the
/// arguments, or holds arguments that cannot be decoded.
pub open spec fn tool_use_block(call: JsonValue) -> Option<JsonValue> {
    match (call.get("id"@), call.get("function"@)) {
        (Some(JsonValue::String(id)), Some(function)) => match (
            function.get("name"@),
            function.get("arguments"@),
        ) {
            (Some(JsonValue::String(name)), Some(raw)) => match decoded_args(raw) {
                Ok(input) => Some(tool_use(id, name, input)),
                Err(_) => None,
            },
            _ => None,
        },
        _ => None,
    }
}

/// The `tool_use` blocks for the recorded calls that have one, in order.
pub open spec fn tool_use_blocks(calls: Seq<JsonValue>) -> Seq<JsonValue>
    decreases calls.len(),
{
    if calls.len() == 0 {
        Seq::empty()
    } else {
        match tool_use_block(calls.last()) {
            Some(block) => tool_use_blocks(calls.drop_last()).push(block),
            None => tool_use_blocks(calls.drop_last()),
        }
    }
}

/// The text of an assistant turn as a list of blocks: none where the text
/// is empty.
pub open spec fn leading_text(content: Seq<char>) -> Seq<JsonValue> {
    if content.len() > 0 {
        seq![text_block(content)]
    } else {
        Seq::empty()
    }
}

/// One turn as Anthropic takes it. A `Tool` turn that names no call has no
/// place in the conversation.
pub open spec fn anthropic_turn(message: MessageView) -> Option<JsonValue> {
    match message.role {
        Role::User => match message.tool_call_id {
            Some(id) => Some(tool_result_turn(id, message.content)),
            None => Some(plain_turn("user"@, message.content)),
        },
        Role::Tool => match message.tool_call_id {
            Some(id) => Some(tool_result_turn(id, message.content)),
            None => None,
        },
        Role::Assistant => match message.tool_calls {
            Some(JsonValue::Array(calls)) => Some(
                JsonValue::Object(
                    map![
                        "role"@ => JsonValue::text("assistant"@),
                        "content"@ => JsonValue::Array(
                            leading_text(message.content) + tool_use_blocks(calls),
                        )
                    ],
                ),
            ),
            _ => Some(plain_turn("assistant"@, message.content)),
        },
    }
}

/// A conversation as Anthropic takes it.
pub open spec fn anthropic_turns(messages: Seq<MessageView>) -> Seq<JsonValue>
    decreases messages.len(),
{
    if messages.len() == 0 {
        Seq::empty()
    } else {
        match anthropic_turn(messages.last()) {
            Some(turn) => anthropic_turns(messages.drop_last()).push(turn),
            None => anthropic_turns(messages.drop_last()),
        }
    }
}

fn build_tool_result_turn(id: &str, content: &str) -> (out: Json)
    ensures
        out@ == tool_result_turn(id@, content@),
{
    let mut block: Vec<(String, Json)> = Vec::new();
    put(&mut block, "type", Json::text("tool_result"));
    put(&mut block, "tool_use_id", Json::text(id));
    put(&mut block, "content", Json::text(content));
    let mut blocks: Vec<Json> = Vec::new();
    append(&mut blocks, Json::Object(block));
    assert(items_view(blocks@) =~= seq![
        JsonValue::Object(
            map![
                "type"@ => JsonValue::text("tool_result"@),
                "tool_use_id"@ => JsonValue::text(id@),
                "content"@ => JsonValue::text(content@)
            ],
        ),
    ]);
    let mut fields: Vec<(String, Json)> = Vec::new();
    put(&mut fields, "role", Json::text("user"));
    put(&mut fields, "content", Json::Array(blocks));
    Json::Object(fields)
}

fn build_plain_turn(role: &str, content: &str) -> (out: Json)
    ensures
        out@ == plain_turn(role@, content@),
{
    let mut fields: Vec<(String, Json)> = Vec::new();
    put(&mut fields, "role", Json::text(role));
    put(&mut fields, "content", Json::text(content));
    Json::Object(fields)
}

fn build_text_block(text: &str) -> (out: Json)
    ensures
        out@ == text_block(text@),
{
    let mut fields: Vec<(String, Json)> = Vec::new();
    put(&mut fields, "type", Json::text("text"));
    put(&mut fields, "text", Json::text(text));
    Json::Object(fields)
}

/// The document behind an optional document.
pub open spec fn block_view(block: Option<Json>) -> Option<JsonValue> {
    match block {
        Some(b) => Some(b@),
        None => None,
    }
}

/// The `tool_use` block for a call recorded in the OpenAI shape.
pub fn build_tool_use_block(call: &Json) -> (out: Option<Json>)
    ensures
        block_view(out) == tool_use_block(call@),
{
    let id = match call.get("id") {
        Some(value) => match value.as_str() {
            Some(id) => id,
            None => return None,
        },
        None => return None,
    };
    let function = match call.get("function") {
        Some(function) => function,
        None => return None,
    };
    let name = match function.get("name") {
        Some(value) => match value.as_str() {
            Some(name) => name,
            None => return None,
        },
        None => return None,
    };
    let raw = match function.get("arguments") {
        Some(raw) => raw,
        None => return None,
    };
    let input = match decode_args(raw) {
        Ok(input) => input,
        Err(_) => return None,
    };
    let mut fields: Vec<(String, Json)> = Vec::new();
    put(&mut fields, "type", Json::text("tool_use"));
    put(&mut fields, "id", Json::text(id));
    put(&mut fields, "name", Json::text(name));
    put(&mut fields, "input", input);
    Some(Json::Object(fields))
}

/// The blocks of an assistant turn that recorded `calls`.
fn build_assistant_blocks(content: &str, calls: &Vec<Json>) -> (out: Vec<Json>)
    ensures
        items_view(out@) == leading_text(content@) + tool_use_blocks(items_view(calls@)),
{
    let ghost docs = items_view(calls@);
    let mut out: Vec<Json> = Vec::new();
    if !content.is_empty() {
        append(&mut out, build_text_block(content));
    }
    let mut i: usize = 0;
    proof {
        assert(docs.take(0) =~= Seq::empty());
        assert(items_view(out@) =~= leading_text(content@) + tool_use_blocks(docs.take(0)));
    }
    while i < calls.len()
        invariant
            i <= calls.len(),
            docs == items_view(calls@),
            items_view(out@) == leading_text(content@) + tool_use_blocks(docs.take(i as int)),
        decreases calls.len() - i,
    {
        proof {
            lemma_take_step(docs, i as int);
        }
        match build_tool_use_block(&calls[i]) {
            Some(block) => {
                proof {
                    assert((leading_text(content@) + tool_use_blocks(docs.take(i as int))).push(
                        block@,
                    ) =~= leading_text(content@) + tool_use_blocks(docs.take(i as int)).push(
                        block@,
                    ));
                }
                append(&mut out, block);
            },
            None => {},
        }
        i += 1;
    }
    proof {
        assert(docs.take(i as int) =~= docs);
    }
    out
}

/// One turn as Anthropic takes it.
pub fn build_anthropic_turn(message: &Message) -> (out: Option<Json>)
    ensures
        block_view(out) == anthropic_turn(message@),
{
    match message.role {
        Role::User => match &message.tool_call_id {
            Some(id) => Some(build_tool_result_turn(id.as_str(), message.content.as_str())),
            None => Some(build_plain_turn("user", message.content.as_str())),
        },
        Role::Tool => match &message.tool_call_id {
            Some(id) => Some(build_tool_result_turn(id.as_str(), message.content.as_str())),
            None => None,
        },
        Role::Assistant => {
            let recorded = match &message.tool_calls {
                Some(calls) => calls.as_array(),
                None => None,
            };
            match recorded {
                Some(calls) => {
                    let blocks = build_assistant_blocks(message.content.as_str(), calls);
                    let mut fields: Vec<(String, Json)> = Vec::new();
                    put(&mut fields, "role", Json::text("assistant"));
                    put(&mut fields, "content", Json::Array(blocks));
                    Some(Json::Object(fields))
                },
                None => Some(build_plain_turn("assistant", message.content.as_str())),
            }
        },
    }
}

/// A conversation as Anthropic takes it: the turns that have a place in
/// it, in order.
pub fn build_anthropic_messages(messages: &[Message]) -> (out: Vec<Json>)
    ensures
        items_view(out@) == anthropic_turns(messages_view(messages@)),
{
    let ghost views = messages_view(messages@);
    let mut out: Vec<Json> = Vec::new();
    let mut i: usize = 0;
    proof {
        assert(views.take(0) =~= Seq::empty());
        assert(items_view(out@) =~= anthropic_turns(views.take(0)));
    }
    while i < messages.len()
        invariant
            i <= messages.len(),
            views == messages_view(messages@),
            items_view(out@) == anthropic_turns(views.take(i as int)),
        decreases messages.len() - i,
    {
        proof {
            lemma_take_step(views, i as int);
        }
        match build_anthropic_turn(&messages[i]) {
            Some(turn) => {
                append(&mut out, turn);
            },
            None => {},
        }
        i += 1;
    }
    proof {
        assert(views.take(i as int) =~= views);
    }
    out
}

/// The declaration of one tool as Anthropic takes it.
pub open spec fn anthropic_tool(decl: ToolDeclView) -> JsonValue {
    JsonValue::Object(
        map![
            "name"@ => JsonValue::text(decl.name),
            "description"@ => JsonValue::text(decl.description),
            "input_schema"@ => decl.parameters
        ],
    )
}

/// The declarations of a list of tools as Anthropic takes them.
pub open spec fn anthropic_tools(decls: Seq<ToolDeclView>) -> Seq<JsonValue> {
    decls.map_values(|d: ToolDeclView| anthropic_tool(d))
}

/// The declaration of one tool as Anthropic takes it.
pub fn build_anthropic_tool(decl: &ToolDecl) -> (out: Json)
    ensures
        out@ == anthropic_tool(decl@),
{
    let mut fields: Vec<(String, Json)> = Vec::new();
    put(&mut fields, "name", Json::text(decl.name.as_str()));
    put(&mut fields, "description", Json::text(decl.description.as_str()));
    put(&mut fields, "input_schema", decl.parameters.clone());
    Json::Object(fields)
}

/// The declarations of a list of tools as Anthropic takes them.
pub fn build_anthropic_tools(decls: &[ToolDecl]) -> (out: Vec<Json>)
    ensures
        items_view(out@) == anthropic_tools(decls_view(decls@)),
{
    let mut out: Vec<Json> = Vec::new();
    let mut i: usize = 0;
    assert(decls@.take(0) =~= Seq::empty());
    assert(items_view(out@) =~= anthropic_tools(decls_view(decls@.take(0))));
    while i < decls.len()
        invariant
            i <= decls.len(),
            items_view(out@) == anthropic_tools(decls_view(decls@.take(i as int))),
        decreases decls.len() - i,
    {
        let item = build_anthropic_tool(&decls[i]);
        proof {
            lemma_map_step(decls@, i as int, |d: ToolDecl| d@);
            lemma_map_push(
                decls_view(decls@.take(i as int)),
                decls@[i as int]@,
                |d: ToolDeclView| anthropic_tool(d),
            );
        }
        append(&mut out, item);
        i += 1;
    }
    assert(decls@.take(i as int) =~= decls@);
    out
}

/// The body of a messages request: model, the bound on the answer's
/// length, the conversation, and the tools where there are any.
pub open spec fn anthropic_body(
    model: Seq<char>,
    messages: Seq<MessageView>,
    tools: Seq<ToolDeclView>,
) -> JsonValue {
    let base = map![
        "model"@ => JsonValue::text(model),
        "max_tokens"@ => JsonValue::integer(1024),
        "messages"@ => JsonValue::Array(anthropic_turns(messages))
    ];
    if tools.len() == 0 {
        JsonValue::Object(base)
    } else {
        JsonValue::Object(base.insert("tools"@, JsonValue::Array(anthropic_tools(tools))))
    }
}

/// The body of a messages request.
pub fn build_anthropic_body(model: &str, messages: &[Message], tools: &[ToolDecl]) -> (out: Json)
    ensures
        out@ == anthropic_body(model@, messages_view(messages@), decls_view(tools@)),
{
    let mut fields: Vec<(String, Json)> = Vec::new();
    put(&mut fields, "model", Json::text(model));
    put(&mut fields, "max_tokens", Json::integer(1024));
    put(&mut fields, "messages", Json::Array(build_anthropic_messages(messages)));
    if tools.len() > 0 {
        put(&mut fields, "tools", Json::Array(build_anthropic_tools(tools)));
    }
    Json::Object(fields)
}

/// What has been read from the blocks of a response: the texts, the calls,
/// and the calls once more in the OpenAI shape.
pub ghost struct Blocks {
    pub texts: Seq<Seq<char>>,
    pub calls: Seq<ToolCallView>,
    pub raw: Seq<JsonValue>,
}

/// A call in the OpenAI shape, with its arguments as JSON text.
pub open spec fn recorded_call(call: ToolCallView) -> JsonValue {
    JsonValue::Object(
        map![
            "id"@ => JsonValue::text(call.id),
            "type"@ => JsonValue::text("function"@),
            "function"@ => JsonValue::Object(
                map![
                    "name"@ => JsonValue::text(call.name),
                    "arguments"@ => JsonValue::text(json_text(call.args))
                ],
            )
        ],
    )
}

/// The call that a `tool_use` block requests. An id or a name that is
/// missing or no string counts as empty, a missing input as the empty
/// object.
pub open spec fn requested_call(block: JsonValue) -> ToolCallView {
    ToolCallView {
        id: text_or_empty(block.get("id"@)),
        name: text_or_empty(block.get("name"@)),
        args: match block.get("input"@) {
            Some(input) => input,
            None => JsonValue::Object(Map::empty()),
        },
    }
}

/// What one more block adds: a `text` block its text, where that is a
/// string; a `tool_use` block its call; any other block nothing.
pub open spec fn read_block(so_far: Blocks, block: JsonValue) -> Blocks {
    match block.get("type"@) {
        Some(JsonValue::String(kind)) => if kind == "text"@ {
            match block.get("text"@) {
                Some(JsonValue::String(text)) => Blocks {
                    texts: so_far.texts.push(text),
                    ..so_far
                },
                _ => so_far,
            }
        } else if kind == "tool_use"@ {
            Blocks {
                texts: so_far.texts,
                calls: so_far.calls.push(requested_call(block)),
                raw: so_far.raw.push(recorded_call(requested_call(block))),
            }
        } else {
            so_far
        },
        _ => so_far,
    }
}

/// What the blocks of a response hold, read in order.
pub open spec fn read_blocks(blocks: Seq<JsonValue>) -> Blocks
    decreases blocks.len(),
{
    if blocks.len() == 0 {
        Blocks { texts: Seq::empty(), calls: Seq::empty(), raw: Seq::empty() }
    } else {
        read_block(read_blocks(blocks.drop_last()), blocks.last())
    }
}

/// The texts joined by line breaks.
pub open spec fn lines(texts: Seq<Seq<char>>) -> Seq<char>
    decreases texts.len(),
{
    if texts.len() == 0 {
        Seq::empty()
    } else if texts.len() == 1 {
        texts[0]
    } else {
        lines(texts.drop_last()) + "\n"@ + texts.last()
    }
}

/// The text of a completion: none where no text was read.
pub open spec fn joined_text(texts: Seq<Seq<char>>) -> Option<Seq<char>> {
    if texts.len() == 0 {
        None
    } else {
        Some(lines(texts))
    }
}

/// The recorded calls of a completion: none where no call was read.
pub open spec fn recorded_calls(raw: Seq<JsonValue>) -> Option<JsonValue> {
    if raw.len() == 0 {
        None
    } else {
        Some(JsonValue::Array(raw))
    }
}

/// The completion that an Anthropic response holds: its texts joined by
/// line breaks, its calls, and the calls recorded in the OpenAI shape, so
/// that what the agent keeps looks the same whichever backend answered.
pub open spec fn anthropic_completion(response: JsonValue) -> Result<CompletionView, Failure> {
    match response.get("content"@) {
        Some(JsonValue::Array(blocks)) => {
            let read = read_blocks(blocks);
            Ok(
                CompletionView {
                    content: joined_text(read.texts),
                    tool_calls: read.calls,
                    raw_tool_calls: recorded_calls(read.raw),
                },
            )
        },
        _ => Err(malformed("missing 'content' array"@)),
    }
}

/// The call that a `tool_use` block requests.
pub fn read_requested_call(block: &Json) -> (out: ToolCall)
    ensures
        out@ == requested_call(block@),
{
    ToolCall {
        id: string_or_empty(block.get("id")),
        name: string_or_empty(block.get("name")),
        args: match block.get("input") {
            Some(input) => input.clone(),
            None => Json::Object(Vec::new()),
        },
    }
}

/// A call in the OpenAI shape, with its arguments as JSON text.
pub fn record_call(call: &ToolCall) -> (out: Json)
    ensures
        out@ == recorded_call(call@),
{
    let arguments = call.args.to_text();
    let mut function: Vec<(String, Json)> = Vec::new();
    put(&mut function, "name", Json::text(call.name.as_str()));
    put(&mut function, "arguments", Json::text(arguments.as_str()));
    let mut fields: Vec<(String, Json)> = Vec::new();
    put(&mut fields, "id", Json::text(call.id.as_str()));
    put(&mut fields, "type", Json::text("function"));
    put(&mut fields, "function", Json::Object(function));
    Json::Object(fields)
}

/// Reads the completion out of an Anthropic response. Fails with
/// [`AgentError::InvalidResponse`] where the response has no array under
/// `content`.
pub fn parse_anthropic_completion(json: &Json) -> (out: Result<Completion, AgentError>)
    ensures
        completion_view(out) == anthropic_completion(json@),
{
    let blocks = match json.get("content") {
        Some(content) => match content.as_array() {
            Some(blocks) => blocks,
            None => return Err(
                AgentError::InvalidResponse(String::from_str("missing 'content' array")),
            ),
        },
        None => return Err(
            AgentError::InvalidResponse(String::from_str("missing 'content' array")),
        ),
    };
    let ghost docs = items_view(blocks@);
    let mut content: Option<String> = None;
    let mut tool_calls: Vec<ToolCall> = Vec::new();
    let mut raw: Vec<Json> = Vec::new();
    let mut i: usize = 0;
    proof {
        assert(docs.take(0) =~= Seq::empty());
        assert(calls_view(tool_calls@) =~= Seq::empty());
        assert(items_view(raw@) =~= Seq::empty());
    }
    while i < blocks.len()
        invariant
            i <= blocks.len(),
            docs == items_view(blocks@),
            text_view(content) == joined_text(read_blocks(docs.take(i as int)).texts),
            calls_view(tool_calls@) == read_blocks(docs.take(i as int)).calls,
            items_view(raw@) == read_blocks(docs.take(i as int)).raw,
        decreases blocks.len() - i,
    {
        let block = &blocks[i];
        let ghost so_far = read_blocks(docs.take(i as int));
        proof {
            lemma_take_step(docs, i as int);
            assert(read_blocks(docs.take(i as int + 1)) == read_block(so_far, block@));
        }
        let kind = match block.get("type") {
            Some(value) => value.as_str(),
            None => None,
        };
        match kind {
            Some(kind) => {
                if same_text(kind, "text") {
                    let text = match block.get("text") {
                        Some(value) => value.as_str(),
                        None => None,
                    };
                    match text {
                        Some(text) => {
                            content = match content {
                                None => Some(String::from_str(text)),
                                Some(before) => {
                                    let mut longer = joined(before.as_str(), "\n");
                                    longer.append(text);
                                    Some(longer)
                                },
                            };
                            proof {
                                let texts = so_far.texts.push(text@);
                                assert(texts.drop_last() =~= so_far.texts);
                            }
                        },
                        None => {},
                    }
                } else if same_text(kind, "tool_use") {
                    let call = read_requested_call(block);
                    let record = record_call(&call);
                    proof {
                        lemma_map_push(tool_calls@, call, |c: ToolCall| c@);
                    }
                    append(&mut raw, record);
                    tool_calls.push(call);
                }
            },
            None => {},
        }
        i += 1;
    }
    proof {
        assert(docs.take(i as int) =~= docs);
    }
    let raw_tool_calls = if raw.len() == 0 {
        None
    } else {
        Some(Json::Array(raw))
    };
    Ok(Completion { content, tool_calls, raw_tool_calls })
}

/// What Anthropic's response comes to: a refusal where the status is not
/// one of success, a failure to read where the body is not JSON, and else
/// the completion in it.
pub open spec fn anthropic_response(status: u16, body: Seq<char>) -> Result<
    CompletionView,
    Failure,
> {
    if !is_success(status) {
        Err(refusal("Anthropic"@, status, body))
    } else {
        match json_decode(body) {
            Err(message) => Err(Failure::Json(message)),
            Ok(response) => anthropic_completion(response),
        }
    }
}

/// The address of the messages API.
pub open spec fn anthropic_url() -> Seq<char> {
    "https://api.anthropic.com/v1/messages"@
}

/// The headers of a messages request.
pub open spec fn anthropic_headers(api_key: Seq<char>) -> Seq<(Seq<char>, Seq<char>)> {
    seq![
        ("x-api-key"@, api_key),
        ("anthropic-version"@, "2023-06-01"@),
        ("content-type"@, "application/json"@),
    ]
}

/// The adapter for Anthropic's messages API.
#[derive(Debug)]
pub struct AnthropicProvider {
    pub api_key: String,
    pub default_model: String,
}

impl AnthropicProvider {
    /// An adapter that authenticates with `api_key` and asks for `model`
    /// where a request names none.
    pub fn new(api_key: &str, model: &str) -> (out: AnthropicProvider)
        ensures
            out.api_key@ == api_key@,
            out.default_model@ == model@,
    {
        AnthropicProvider {
            api_key: String::from_str(api_key),
            default_model: String::from_str(model),
        }
    }
}

impl Adapter for AnthropicProvider {
    open spec fn name(&self) -> Seq<char> {
        "Anthropic"@
    }

    open spec fn request_for(
        &self,
        messages: Seq<MessageView>,
        tools: Seq<ToolDeclView>,
        model: Seq<char>,
    ) -> HttpRequestView {
        HttpRequestView {
            url: anthropic_url(),
            headers: anthropic_headers(self.api_key@),
            body: anthropic_body(active_model(model, self.default_model@), messages, tools),
        }
    }

    open spec fn response_for(&self, status: u16, body: Seq<char>) -> Result<
        CompletionView,
        Failure,
    > {
        anthropic_response(status, body)
    }

    open spec fn unreachable_for(&self, cause: Seq<char>) -> Failure {
        Failure::LlmError(cause)
    }

    fn provider_name(&self) -> &'static str {
        "Anthropic"
    }

    fn request(&self, messages: &[Message], tools: &[ToolDecl], model: &str) -> HttpRequest {
        let mut headers: Vec<(String, String)> = Vec::new();
        assert(headers_view(headers@) =~= Seq::empty());
        header(&mut headers, "x-api-key", self.api_key.as_str());
        header(&mut headers, "anthropic-version", "2023-06-01");
        header(&mut headers, "content-type", "application/json");
        assert(headers_view(headers@) =~= anthropic_headers(self.api_key@));
        HttpRequest {
            url: String::from_str("https://api.anthropic.com/v1/messages"),
            headers,
            body: build_anthropic_body(
                choose_model(model, self.default_model.as_str()),
                messages,
                tools,
            ),
        }
    }

    fn response(&self, status: u16, body: &str) -> Result<Completion, AgentError> {
        if status < 200 || status >= 300 {
            return Err(refuse("Anthropic", status, body));
        }
        match Json::parse(body) {
            Err(error) => Err(error),
            Ok(response) => parse_anthropic_completion(&response),
        }
    }

    /// A request that could not be sent fails with
    /// [`AgentError::LlmError`].
    fn unreachable(&self, cause: &str) -> AgentError {
        AgentError::LlmError(String::from_str(cause))
    }
}

} // verus!
