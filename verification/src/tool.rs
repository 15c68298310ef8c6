//! Tools: what a backend may ask the agent to run, and the three that come
//! with the crate.

use crate::codec::json_decode;
use crate::error::{AgentError, Failure};
use crate::json::{append, items_view, put, Json, JsonValue};
use crate::text::{format_i64, joined, same_text, signed_decimal};
use vstd::prelude::*;
use vstd::string::StringExecFns;

verus! {

/// A capability that the agent can run on a backend's request. `name`,
/// `description` and `parameters_schema` describe it to the backend;
/// `execute` runs it on the arguments that the backend chose.
pub trait Tool: Send + Sync {
    fn name(&self) -> &'static str;

    fn description(&self) -> &'static str;

    /// The shape of the arguments, as a JSON Schema.
    fn parameters_schema(&self) -> Json;

    fn execute(&self, args: Json) -> Result<String, AgentError>;
}

/// A boxed tool is a tool: each method hands on what the tool in the box
/// returns for the same arguments.
impl<T: Tool + ?Sized> Tool for Box<T> {
    fn name(&self) -> (out: &'static str)
        ensures
            call_ensures(T::name, (&**self,), out),
    {
        (**self).name()
    }

    fn description(&self) -> (out: &'static str)
        ensures
            call_ensures(T::description, (&**self,), out),
    {
        (**self).description()
    }

    fn parameters_schema(&self) -> (out: Json)
        ensures
            call_ensures(T::parameters_schema, (&**self,), out),
    {
        (**self).parameters_schema()
    }

    fn execute(&self, args: Json) -> (out: Result<String, AgentError>)
        ensures
            call_ensures(T::execute, (&**self, args), out),
    {
        (**self).execute(args)
    }
}

/// A tool, seen as a tool of whatever kind.
pub open spec fn as_tool<'a, T: Tool>(tool: &'a T) -> &'a dyn Tool {
    tool
}

/// What a tool says of itself, taken down once.
#[derive(Debug)]
pub struct ToolDecl {
    pub name: String,
    pub description: String,
    pub parameters: Json,
}

/// A [`ToolDecl`] by what it holds.
pub ghost struct ToolDeclView {
    pub name: Seq<char>,
    pub description: Seq<char>,
    pub parameters: JsonValue,
}

impl View for ToolDecl {
    type V = ToolDeclView;

    open spec fn view(&self) -> ToolDeclView {
        ToolDeclView {
            name: self.name@,
            description: self.description@,
            parameters: self.parameters@,
        }
    }
}

/// The declarations of a list of tools, each by its view.
pub open spec fn decls_view(decls: Seq<ToolDecl>) -> Seq<ToolDeclView> {
    decls.map_values(|d: ToolDecl| d@)
}

/// Asks each tool for its name, description and schema.
pub fn declare(tools: &[&dyn Tool]) -> (out: Vec<ToolDecl>)
    ensures
        out.len() == tools.len(),
{
    let mut out: Vec<ToolDecl> = Vec::new();
    let mut i: usize = 0;
    while i < tools.len()
        invariant
            i <= tools.len(),
            out.len() == i,
        decreases tools.len() - i,
    {
        let tool = tools[i];
        out.push(
            ToolDecl {
                name: String::from_str(tool.name()),
                description: String::from_str(tool.description()),
                parameters: tool.parameters_schema(),
            },
        );
        i += 1;
    }
    out
}

/// What `execute` returned, by its view.
pub open spec fn outcome_view(outcome: Result<String, AgentError>) -> Result<Seq<char>, Failure> {
    match outcome {
        Ok(text) => Ok(text@),
        Err(error) => Err(error@),
    }
}

/// The schema `{"type": "integer"}`.
pub open spec fn integer_schema() -> JsonValue {
    JsonValue::Object(map!["type"@ => JsonValue::text("integer"@)])
}

/// The schema of an object with the two required integers `a` and `b` and
/// no other member.
pub open spec fn operands_schema() -> JsonValue {
    JsonValue::Object(
        map![
            "type"@ => JsonValue::text("object"@),
            "properties"@ => JsonValue::Object(
                map!["a"@ => integer_schema(), "b"@ => integer_schema()],
            ),
            "required"@ => JsonValue::Array(seq![JsonValue::text("a"@), JsonValue::text("b"@)]),
            "additionalProperties"@ => JsonValue::Bool(false)
        ],
    )
}

/// The schema of an object without members.
pub open spec fn no_arguments_schema() -> JsonValue {
    JsonValue::Object(
        map![
            "type"@ => JsonValue::text("object"@),
            "properties"@ => JsonValue::Object(Map::empty()),
            "additionalProperties"@ => JsonValue::Bool(false)
        ],
    )
}

fn integer_type() -> (out: Json)
    ensures
        out@ == integer_schema(),
{
    let mut fields: Vec<(String, Json)> = Vec::new();
    put(&mut fields, "type", Json::text("integer"));
    Json::Object(fields)
}

fn operands() -> (out: Json)
    ensures
        out@ == operands_schema(),
{
    let mut properties: Vec<(String, Json)> = Vec::new();
    put(&mut properties, "a", integer_type());
    put(&mut properties, "b", integer_type());
    let mut required: Vec<Json> = Vec::new();
    append(&mut required, Json::text("a"));
    append(&mut required, Json::text("b"));
    assert(items_view(required@) =~= seq![JsonValue::text("a"@), JsonValue::text("b"@)]);
    let mut fields: Vec<(String, Json)> = Vec::new();
    put(&mut fields, "type", Json::text("object"));
    put(&mut fields, "properties", Json::Object(properties));
    put(&mut fields, "required", Json::Array(required));
    put(&mut fields, "additionalProperties", Json::Bool(false));
    Json::Object(fields)
}

/// The integer operand `key` of `args`, or the failure that names it.
pub open spec fn operand(args: JsonValue, key: Seq<char>) -> Result<i64, Failure> {
    match args.get(key) {
        Some(value) => match value.as_i64() {
            Some(i) => Ok(i),
            None => Err(Failure::ToolError("Missing '"@ + key + "'"@)),
        },
        None => Err(Failure::ToolError("Missing '"@ + key + "'"@)),
    }
}

/// The failure of an operation whose result does not fit in 64 bits.
pub open spec fn out_of_range() -> Failure {
    Failure::ToolError("Result out of range"@)
}

fn read_operand(args: &Json, key: &str) -> (out: Result<i64, AgentError>)
    ensures
        out matches Ok(i) ==> operand(args@, key@) == Ok::<i64, Failure>(i),
        out matches Err(error) ==> operand(args@, key@) == Err::<i64, Failure>(error@),
{
    let found = match args.get(key) {
        Some(value) => value.as_i64(),
        None => None,
    };
    match found {
        Some(i) => Ok(i),
        None => {
            let mut message = joined("Missing '", key);
            message.append("'");
            Err(AgentError::ToolError(message))
        },
    }
}

/// What adding the operands of `args` gives.
pub open spec fn sum_outcome(args: JsonValue) -> Result<Seq<char>, Failure> {
    match operand(args, "a"@) {
        Err(failure) => Err(failure),
        Ok(a) => match operand(args, "b"@) {
            Err(failure) => Err(failure),
            Ok(b) => if i64::MIN <= a + b <= i64::MAX {
                Ok(signed_decimal(a + b))
            } else {
                Err(out_of_range())
            },
        },
    }
}

/// What multiplying the operands of `args` gives.
pub open spec fn product_outcome(args: JsonValue) -> Result<Seq<char>, Failure> {
    match operand(args, "a"@) {
        Err(failure) => Err(failure),
        Ok(a) => match operand(args, "b"@) {
            Err(failure) => Err(failure),
            Ok(b) => if i64::MIN <= a * b <= i64::MAX {
                Ok(signed_decimal(a * b))
            } else {
                Err(out_of_range())
            },
        },
    }
}

/// Adds two integers.
#[derive(Debug, Clone, Copy)]
pub struct AddNumbersTool;

impl Tool for AddNumbersTool {
    fn name(&self) -> (out: &'static str)
        ensures
            out@ == "add_numbers"@,
    {
        "add_numbers"
    }

    fn description(&self) -> (out: &'static str)
        ensures
            out@ == "Adds two integers and returns the result as a string"@,
    {
        "Adds two integers and returns the result as a string"
    }

    fn parameters_schema(&self) -> (out: Json)
        ensures
            out@ == operands_schema(),
    {
        operands()
    }

    /// The sum of the members `a` and `b` of `args`, in decimal. Fails where
    /// one of them is missing or no integer, naming it, and where the sum
    /// does not fit in 64 bits.
    fn execute(&self, args: Json) -> (out: Result<String, AgentError>)
        ensures
            outcome_view(out) == sum_outcome(args@),
    {
        let a = match read_operand(&args, "a") {
            Ok(a) => a,
            Err(error) => return Err(error),
        };
        let b = match read_operand(&args, "b") {
            Ok(b) => b,
            Err(error) => return Err(error),
        };
        match a.checked_add(b) {
            Some(sum) => Ok(format_i64(sum)),
            None => Err(AgentError::ToolError(String::from_str("Result out of range"))),
        }
    }
}

/// Multiplies two integers.
#[derive(Debug, Clone, Copy)]
pub struct MultiplyNumbersTool;

impl Tool for MultiplyNumbersTool {
    fn name(&self) -> (out: &'static str)
        ensures
            out@ == "multiply_numbers"@,
    {
        "multiply_numbers"
    }

    fn description(&self) -> (out: &'static str)
        ensures
            out@ == "Multiplies two integers and returns the result as a string"@,
    {
        "Multiplies two integers and returns the result as a string"
    }

    fn parameters_schema(&self) -> (out: Json)
        ensures
            out@ == operands_schema(),
    {
        operands()
    }

    /// The product of the members `a` and `b` of `args`, in decimal. Fails
    /// where one of them is missing or no integer, naming it, and where the
    /// product does not fit in 64 bits.
    fn execute(&self, args: Json) -> (out: Result<String, AgentError>)
        ensures
            outcome_view(out) == product_outcome(args@),
    {
        let a = match read_operand(&args, "a") {
            Ok(a) => a,
            Err(error) => return Err(error),
        };
        let b = match read_operand(&args, "b") {
            Ok(b) => b,
            Err(error) => return Err(error),
        };
        match a.checked_mul(b) {
            Some(product) => Ok(format_i64(product)),
            None => Err(AgentError::ToolError(String::from_str("Result out of range"))),
        }
    }
}

/// The text of a joke as the joke service sends it: the member `joke`
/// where the joke is of the type `single`, and else the members `setup`
/// and `delivery` with a space between them. A member that is missing or
/// no string counts as empty.
pub open spec fn joke_text(document: JsonValue) -> Seq<char> {
    if document.get("type"@) == Some(JsonValue::text("single"@)) {
        member_text(document, "joke"@)
    } else {
        member_text(document, "setup"@) + " "@ + member_text(document, "delivery"@)
    }
}

/// The text of the member `key` of a document, and the empty text where
/// there is none.
pub open spec fn member_text(document: JsonValue, key: Seq<char>) -> Seq<char> {
    match document.get(key) {
        Some(JsonValue::String(text)) => text,
        _ => Seq::empty(),
    }
}

/// What the body of the joke service's response comes to: the failure to
/// read it where it is not JSON, and else the text of the joke.
pub open spec fn joke_outcome(body: Seq<char>) -> Result<Seq<char>, Failure> {
    match json_decode(body) {
        Err(message) => Err(Failure::Json(message)),
        Ok(document) => Ok(joke_text(document)),
    }
}

fn member<'a>(document: &'a Json, key: &str) -> (out: &'a str)
    ensures
        out@ == member_text(document@, key@),
{
    proof {
        reveal_strlit("");
        assert(""@ =~= Seq::<char>::empty());
    }
    match document.get(key) {
        Some(value) => match value.as_str() {
            Some(text) => text,
            None => "",
        },
        None => "",
    }
}

/// Tells a joke that it fetches from a joke service. Fetching is left to
/// the caller: the tool says where, and reads what came.
#[derive(Debug, Clone, Copy)]
pub struct JokeTool;

impl JokeTool {
    pub fn name(&self) -> (out: &'static str)
        ensures
            out@ == "get_joke"@,
    {
        "get_joke"
    }

    pub fn description(&self) -> (out: &'static str)
        ensures
            out@ == "Fetches a joke from JokeAPI and returns the text"@,
    {
        "Fetches a joke from JokeAPI and returns the text"
    }

    pub fn parameters_schema(&self) -> (out: Json)
        ensures
            out@ == no_arguments_schema(),
    {
        let mut fields: Vec<(String, Json)> = Vec::new();
        put(&mut fields, "type", Json::text("object"));
        put(&mut fields, "properties", Json::Object(Vec::new()));
        put(&mut fields, "additionalProperties", Json::Bool(false));
        Json::Object(fields)
    }

    /// The address that a joke is fetched from.
    pub fn url(&self) -> (out: &'static str)
        ensures
            out@ == "https://v2.jokeapi.dev/joke/Any"@,
    {
        "https://v2.jokeapi.dev/joke/Any"
    }

    /// The text of the joke in `document`.
    pub fn joke(&self, document: &Json) -> (out: String)
        ensures
            out@ == joke_text(document@),
    {
        let single = match document.get("type") {
            Some(value) => match value.as_str() {
                Some(kind) => same_text(kind, "single"),
                None => false,
            },
            None => false,
        };
        if single {
            String::from_str(member(document, "joke"))
        } else {
            let mut out = joined(member(document, "setup"), " ");
            out.append(member(document, "delivery"));
            out
        }
    }

    /// The text of the joke in the body of the service's response. Fails
    /// with [`AgentError::Json`] where the body is not JSON.
    pub fn read(&self, body: &str) -> (out: Result<String, AgentError>)
        ensures
            outcome_view(out) == joke_outcome(body@),
    {
        match Json::parse(body) {
            Ok(document) => Ok(self.joke(&document)),
            Err(error) => Err(error),
        }
    }
}

} // verus!
