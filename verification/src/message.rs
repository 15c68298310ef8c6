//! The records that a conversation is made of: turns, requests to run a
//! tool, and what a backend answers.

use crate::json::{Json, JsonValue};
use vstd::prelude::*;
use vstd::string::StringExecFns;

verus! {

/// Who speaks in a turn. A `Tool` turn carries the result of a tool back into
/// the conversation.
#[derive(Debug, Clone, Copy, PartialEq, Eq, Structural)]
pub enum Role {
    User,
    Assistant,
    Tool,
}

impl Role {
    /// The lower-case token by which the role goes over the wire.
    pub open spec fn token(self) -> Seq<char> {
        match self {
            Role::User => "user"@,
            Role::Assistant => "assistant"@,
            Role::Tool => "tool"@,
        }
    }

    pub fn as_str(&self) -> (out: &'static str)
        ensures
            out@ == self.token(),
    {
        match self {
            Role::User => "user",
            Role::Assistant => "assistant",
            Role::Tool => "tool",
        }
    }

    pub fn to_string(&self) -> (out: String)
        ensures
            out@ == self.token(),
    {
        String::from_str(self.as_str())
    }
}

/// The characters of an optional string.
pub open spec fn text_view(text: Option<String>) -> Option<Seq<char>> {
    match text {
        Some(t) => Some(t@),
        None => None,
    }
}

/// The document of an optional [`Json`].
pub open spec fn json_view(value: Option<Json>) -> Option<JsonValue> {
    match value {
        Some(v) => Some(v@),
        None => None,
    }
}

/// A copy of an optional string.
pub fn clone_text(text: &Option<String>) -> (out: Option<String>)
    ensures
        text_view(out) == text_view(*text),
{
    match text {
        Some(t) => Some(t.clone()),
        None => None,
    }
}

/// A copy of an optional document.
pub fn clone_json(value: &Option<Json>) -> (out: Option<Json>)
    ensures
        json_view(out) == json_view(*value),
{
    match value {
        Some(v) => Some(v.clone()),
        None => None,
    }
}

/// One turn of a conversation.
#[derive(Debug)]
pub struct Message {
    pub role: Role,
    pub content: String,
    /// The call that this turn answers; present in `Tool` turns only.
    pub tool_call_id: Option<String>,
    /// The backend's own encoding of the calls requested in this turn, kept
    /// as it came.
    pub tool_calls: Option<Json>,
}

/// A [`Message`] with its texts as sequences of characters and its calls as
/// the document they denote.
pub ghost struct MessageView {
    pub role: Role,
    pub content: Seq<char>,
    pub tool_call_id: Option<Seq<char>>,
    pub tool_calls: Option<JsonValue>,
}

impl View for Message {
    type V = MessageView;

    open spec fn view(&self) -> MessageView {
        MessageView {
            role: self.role,
            content: self.content@,
            tool_call_id: text_view(self.tool_call_id),
            tool_calls: json_view(self.tool_calls),
        }
    }
}

impl MessageView {
    /// A turn names the call it answers exactly when it is a `Tool` turn.
    pub open spec fn well_formed(self) -> bool {
        (self.role == Role::Tool) == (self.tool_call_id is Some)
    }

    pub open spec fn user(content: Seq<char>) -> MessageView {
        MessageView { role: Role::User, content, tool_call_id: None, tool_calls: None }
    }

    pub open spec fn assistant(content: Seq<char>) -> MessageView {
        MessageView { role: Role::Assistant, content, tool_call_id: None, tool_calls: None }
    }

    pub open spec fn assistant_with_tools(content: Seq<char>, tool_calls: JsonValue) -> MessageView {
        MessageView {
            role: Role::Assistant,
            content,
            tool_call_id: None,
            tool_calls: Some(tool_calls),
        }
    }

    pub open spec fn tool_result(content: Seq<char>, id: Seq<char>) -> MessageView {
        MessageView { role: Role::Tool, content, tool_call_id: Some(id), tool_calls: None }
    }
}

impl Clone for Message {
    fn clone(&self) -> (out: Message)
        ensures
            out@ == self@,
    {
        Message {
            role: self.role,
            content: self.content.clone(),
            tool_call_id: clone_text(&self.tool_call_id),
            tool_calls: clone_json(&self.tool_calls),
        }
    }
}

impl Message {
    pub fn user(content: &str) -> (out: Message)
        ensures
            out@ == MessageView::user(content@),
            out@.well_formed(),
    {
        Message {
            role: Role::User,
            content: String::from_str(content),
            tool_call_id: None,
            tool_calls: None,
        }
    }

    pub fn assistant(content: &str) -> (out: Message)
        ensures
            out@ == MessageView::assistant(content@),
            out@.well_formed(),
    {
        Message {
            role: Role::Assistant,
            content: String::from_str(content),
            tool_call_id: None,
            tool_calls: None,
        }
    }

    pub fn assistant_with_tools(content: &str, tool_calls: Json) -> (out: Message)
        ensures
            out@ == MessageView::assistant_with_tools(content@, tool_calls@),
            out@.well_formed(),
    {
        Message {
            role: Role::Assistant,
            content: String::from_str(content),
            tool_call_id: None,
            tool_calls: Some(tool_calls),
        }
    }

    /// The turn that carries the result `content` of the call `id`.
    pub fn tool_result(content: &str, id: &str) -> (out: Message)
        ensures
            out@ == MessageView::tool_result(content@, id@),
            out@.well_formed(),
    {
        Message {
            role: Role::Tool,
            content: String::from_str(content),
            tool_call_id: Some(String::from_str(id)),
            tool_calls: None,
        }
    }
}

/// The turns of a conversation, each by its view.
pub open spec fn messages_view(messages: Seq<Message>) -> Seq<MessageView> {
    messages.map_values(|m: Message| m@)
}

/// A request by the backend to run the tool `name` on `args`. The `id` is
/// the backend's; one run executes each id once.
#[derive(Debug)]
pub struct ToolCall {
    pub id: String,
    pub name: String,
    pub args: Json,
}

/// A [`ToolCall`] by what it holds.
pub ghost struct ToolCallView {
    pub id: Seq<char>,
    pub name: Seq<char>,
    pub args: JsonValue,
}

impl View for ToolCall {
    type V = ToolCallView;

    open spec fn view(&self) -> ToolCallView {
        ToolCallView { id: self.id@, name: self.name@, args: self.args@ }
    }
}

impl Clone for ToolCall {
    fn clone(&self) -> (out: ToolCall)
        ensures
            out@ == self@,
    {
        ToolCall { id: self.id.clone(), name: self.name.clone(), args: self.args.clone() }
    }
}

/// The calls of a completion, each by its view.
pub open spec fn calls_view(calls: Seq<ToolCall>) -> Seq<ToolCallView> {
    calls.map_values(|c: ToolCall| c@)
}

/// What a backend answers to one request: text, requests to run tools, or
/// both.
#[derive(Debug)]
pub struct Completion {
    pub content: Option<String>,
    pub tool_calls: Vec<ToolCall>,
    /// The backend's own encoding of `tool_calls`, kept for replay.
    pub raw_tool_calls: Option<Json>,
}

/// A [`Completion`] by what it holds.
pub ghost struct CompletionView {
    pub content: Option<Seq<char>>,
    pub tool_calls: Seq<ToolCallView>,
    pub raw_tool_calls: Option<JsonValue>,
}

impl View for Completion {
    type V = CompletionView;

    open spec fn view(&self) -> CompletionView {
        CompletionView {
            content: text_view(self.content),
            tool_calls: calls_view(self.tool_calls@),
            raw_tool_calls: json_view(self.raw_tool_calls),
        }
    }
}

impl CompletionView {
    /// The text of the completion, empty where it has none.
    pub open spec fn text(self) -> Seq<char> {
        match self.content {
            Some(t) => t,
            None => Seq::empty(),
        }
    }

    /// A completion must bring text or at least one call.
    pub open spec fn well_formed(self) -> bool {
        self.text().len() > 0 || self.tool_calls.len() > 0
    }
}

} // verus!
