use mini_agent::providers::{
    build_openai_body, build_openai_message, build_openai_messages, build_openai_tool,
    decode_args, parse_openai_call, parse_openai_completion, read_openai_response,
};
use mini_agent::{
    Adapter, AgentError, Json, Message, OllamaProvider, OpenAiProvider, OpenRouterProvider, Role,
    ToolDecl,
};

fn json(text: &str) -> Json {
    Json::parse(text).unwrap()
}

fn adder() -> ToolDecl {
    ToolDecl {
        name: "add_numbers".to_string(),
        description: "Adds".to_string(),
        parameters: json(r#"{"type":"object"}"#),
    }
}

#[test]
fn message_with_recorded_calls_replays_them() {
    let calls = json(r#"[{"id":"c1","type":"function","function":{"name":"f","arguments":"{}"}}]"#);
    let message = Message::assistant_with_tools("", calls);
    assert_eq!(
        build_openai_message(&message).to_text(),
        r#"{"content":"","role":"assistant","tool_calls":[{"function":{"arguments":"{}","name":"f"},"id":"c1","type":"function"}]}"#
    );
}

#[test]
fn message_with_null_calls_omits_them() {
    let message = Message::assistant_with_tools("done", Json::Null);
    assert_eq!(build_openai_message(&message).to_text(), r#"{"content":"done","role":"assistant"}"#);
}

#[test]
fn tool_turn_in_openai_shape() {
    let message = Message::tool_result("7", "call_1");
    assert_eq!(
        build_openai_message(&message).to_text(),
        r#"{"content":"7","role":"tool","tool_call_id":"call_1"}"#
    );
}

#[test]
fn no_messages_give_no_objects() {
    assert!(build_openai_messages(&[]).is_empty());
}

#[test]
fn tool_declaration_in_openai_shape() {
    assert_eq!(
        build_openai_tool(&adder()).to_text(),
        r#"{"function":{"description":"Adds","name":"add_numbers","parameters":{"type":"object"}},"type":"function"}"#
    );
}

#[test]
fn body_without_tools_has_null_tools() {
    let body = build_openai_body("gpt-4o", &[Message::user("hi")], &[]);
    assert_eq!(
        body.to_text(),
        r#"{"max_tokens":1024,"messages":[{"content":"hi","role":"user"}],"model":"gpt-4o","temperature":0.7,"tool_choice":"auto","tools":null}"#
    );
}

#[test]
fn body_with_tools_lists_them() {
    let body = build_openai_body("m", &[], &[adder()]);
    let tools = body.get("tools").unwrap().as_array().unwrap();
    assert_eq!(tools.len(), 1);
    assert_eq!(tools[0].get("function").unwrap().get("name").unwrap().as_str(), Some("add_numbers"));
    assert_eq!(body.get("max_tokens").unwrap().as_i64(), Some(1024));
    assert_eq!(body.get("tool_choice").unwrap().as_str(), Some("auto"));
}

#[test]
fn arguments_as_string_and_as_object_decode_alike() {
    let as_object = json(r#"{"a":1,"b":[true,null,"x"],"c":{"d":2.5}}"#);
    let as_string = Json::String(as_object.to_text());
    let from_object = decode_args(&as_object).unwrap();
    let from_string = decode_args(&as_string).unwrap();
    assert_eq!(from_object.to_text(), from_string.to_text());
    assert_eq!(from_string.get("a").unwrap().as_i64(), Some(1));
    assert_eq!(from_string.get("c").unwrap().get("d").unwrap().to_text(), "2.5");
}

#[test]
fn arguments_that_are_no_json_fail_to_decode() {
    match decode_args(&Json::String("{oops".to_string())) {
        Err(AgentError::Json(msg)) => assert!(!msg.is_empty()),
        other => panic!("Expected Json error, got {:?}", other),
    }
}

#[test]
fn arguments_that_are_no_string_stay_as_they_are() {
    for text in ["null", "7", "[1]", "true"] {
        assert_eq!(decode_args(&json(text)).unwrap().to_text(), text);
    }
}

#[test]
fn call_without_function_is_rejected() {
    match parse_openai_call(&json(r#"{"id":"c1"}"#)) {
        Err(AgentError::InvalidResponse(msg)) => assert_eq!(msg, "missing function in tool call"),
        other => panic!("Expected InvalidResponse, got {:?}", other),
    }
}

#[test]
fn call_without_arguments_is_rejected() {
    match parse_openai_call(&json(r#"{"id":"c1","function":{"name":"f"}}"#)) {
        Err(AgentError::InvalidResponse(msg)) => assert_eq!(msg, "missing arguments"),
        other => panic!("Expected InvalidResponse, got {:?}", other),
    }
}

#[test]
fn call_without_id_or_name_gets_empty_ones() {
    let call = parse_openai_call(&json(r#"{"function":{"arguments":{"x":1}}}"#)).unwrap();
    assert_eq!(call.id, "");
    assert_eq!(call.name, "");
    assert_eq!(call.args.to_text(), r#"{"x":1}"#);
}

#[test]
fn one_bad_call_fails_the_whole_completion() {
    let response = json(
        r#"{"choices":[{"message":{"content":"text","tool_calls":[
            {"id":"a","function":{"name":"f","arguments":"{}"}},
            {"id":"b","function":{"name":"g","arguments":"not json"}},
            {"id":"c","function":{"name":"h"}}
        ]}}]}"#,
    );
    match parse_openai_completion(&response) {
        Err(AgentError::Json(_)) => {}
        other => panic!("Expected Json error, got {:?}", other),
    }
}

#[test]
fn completion_keeps_the_calls_as_they_came() {
    let response = json(
        r#"{"choices":[{"message":{"content":null,"tool_calls":[
            {"id":"a","type":"function","function":{"name":"f","arguments":"{\"k\":1}"}},
            {"id":"b","type":"function","function":{"name":"g","arguments":{"k":2}}}
        ]}},{"message":{"content":"second choice"}}]}"#,
    );
    let completion = parse_openai_completion(&response).unwrap();
    assert_eq!(completion.content, None);
    let calls: Vec<(String, String, String)> = completion
        .tool_calls
        .iter()
        .map(|c| (c.id.clone(), c.name.clone(), c.args.to_text()))
        .collect();
    assert_eq!(
        calls,
        vec![
            ("a".to_string(), "f".to_string(), r#"{"k":1}"#.to_string()),
            ("b".to_string(), "g".to_string(), r#"{"k":2}"#.to_string()),
        ]
    );
    assert_eq!(
        completion.raw_tool_calls.unwrap().to_text(),
        r#"[{"function":{"arguments":"{\"k\":1}","name":"f"},"id":"a","type":"function"},{"function":{"arguments":{"k":2},"name":"g"},"id":"b","type":"function"}]"#
    );
}

#[test]
fn completion_without_message_is_rejected() {
    match parse_openai_completion(&json(r#"{"choices":[{"index":0}]}"#)) {
        Err(AgentError::InvalidResponse(msg)) => assert_eq!(msg, "missing 'message'"),
        other => panic!("Expected InvalidResponse, got {:?}", other),
    }
}

#[test]
fn choices_that_are_no_array_are_rejected() {
    match parse_openai_completion(&json(r#"{"choices":{"0":{}}}"#)) {
        Err(AgentError::InvalidResponse(msg)) => assert_eq!(msg, "missing 'choices'"),
        other => panic!("Expected InvalidResponse, got {:?}", other),
    }
}

#[test]
fn tool_calls_that_are_no_array_request_nothing() {
    let completion =
        parse_openai_completion(&json(r#"{"choices":[{"message":{"content":"x","tool_calls":null}}]}"#))
            .unwrap();
    assert!(completion.tool_calls.is_empty());
    assert_eq!(completion.raw_tool_calls.unwrap().to_text(), "null");
}

#[test]
fn status_other_than_success_is_a_refusal_with_the_body() {
    for status in [199u16, 300, 404, 500] {
        match read_openai_response("OpenAI", status, "{\"error\":\"no\"}") {
            Err(AgentError::ProviderError(msg)) => {
                assert_eq!(msg, format!("OpenAI {}: {{\"error\":\"no\"}}", status))
            }
            other => panic!("Expected ProviderError, got {:?}", other),
        }
    }
}

#[test]
fn any_status_of_success_is_read() {
    let body = r#"{"choices":[{"message":{"content":"ok"}}]}"#;
    for status in [200u16, 201, 204, 299] {
        assert_eq!(read_openai_response("X", status, body).unwrap().content, Some("ok".to_string()));
    }
}

#[test]
fn body_that_is_no_json_fails_to_decode() {
    match read_openai_response("OpenAI", 200, "<html>") {
        Err(AgentError::Json(_)) => {}
        other => panic!("Expected Json error, got {:?}", other),
    }
}

#[test]
fn openai_request() {
    let provider = OpenAiProvider::new("SECRET-REDACTED", "gpt-4o-mini");
    assert_eq!(provider.provider_name(), "OpenAI");
    let request = provider.request(&[Message::user("hi")], &[], "");
    assert_eq!(request.url, "https://api.openai.com/v1/chat/completions");
    assert_eq!(
        request.headers,
        vec![("Authorization".to_string(), "Bearer SECRET-REDACTED".to_string())]
    );
    assert_eq!(request.body.get("model").unwrap().as_str(), Some("gpt-4o-mini"));
    let named = provider.request(&[], &[], "gpt-4o");
    assert_eq!(named.body.get("model").unwrap().as_str(), Some("gpt-4o"));
}

#[test]
fn openrouter_request() {
    let provider = OpenRouterProvider::new("key", "meta-llama/llama-3.1-8b-instruct");
    assert_eq!(provider.provider_name(), "OpenRouter");
    let request = provider.request(&[Message::user("hi")], &[adder()], "");
    assert_eq!(request.url, "https://openrouter.ai/api/v1/chat/completions");
    assert_eq!(
        request.headers,
        vec![
            ("Authorization".to_string(), "Bearer key".to_string()),
            ("HTTP-Referer".to_string(), "https://github.com/RajMandaliya/mini-agent".to_string()),
            ("X-Title".to_string(), "mini-agent".to_string()),
        ]
    );
    assert_eq!(
        request.body.get("model").unwrap().as_str(),
        Some("meta-llama/llama-3.1-8b-instruct")
    );
    assert_eq!(request.body.get("temperature").unwrap().to_text(), "0.7");
}

#[test]
fn ollama_request() {
    let provider = OllamaProvider::new("llama3");
    assert_eq!(provider.provider_name(), "Ollama");
    assert_eq!(provider.base_url, "http://localhost:11434");
    let request = provider.request(&[Message::user("hi")], &[], "");
    assert_eq!(request.url, "http://localhost:11434/v1/chat/completions");
    assert!(request.headers.is_empty());
    assert_eq!(
        request.body.to_text(),
        r#"{"messages":[{"content":"hi","role":"user"}],"model":"llama3","stream":false,"tools":null}"#
    );
}

#[test]
fn ollama_base_url_loses_its_trailing_slashes() {
    assert_eq!(OllamaProvider::with_base_url("http://host:1///", "m").base_url, "http://host:1");
    assert_eq!(OllamaProvider::with_base_url("http://host:1", "m").base_url, "http://host:1");
    assert_eq!(OllamaProvider::with_base_url("///", "m").base_url, "");
    assert_eq!(OllamaProvider::with_base_url("", "m").base_url, "");
    assert_eq!(OllamaProvider::with_base_url("http://h\u{e9}/a/", "m").base_url, "http://h\u{e9}/a");
}

#[test]
fn unreachable_backends() {
    match OllamaProvider::with_base_url("http://host:1/", "m").unreachable("refused") {
        AgentError::ProviderError(msg) => {
            assert_eq!(msg, "Ollama unreachable at http://host:1 \u{2014} is it running? (refused)")
        }
        other => panic!("Expected ProviderError, got {:?}", other),
    }
    match OpenAiProvider::new("k", "m").unreachable("timed out") {
        AgentError::LlmError(msg) => assert_eq!(msg, "timed out"),
        other => panic!("Expected LlmError, got {:?}", other),
    }
    match OpenRouterProvider::new("k", "m").unreachable("timed out") {
        AgentError::LlmError(msg) => assert_eq!(msg, "timed out"),
        other => panic!("Expected LlmError, got {:?}", other),
    }
}

#[test]
fn responses_name_their_backend() {
    match OpenRouterProvider::new("k", "m").response(429, "slow down") {
        Err(AgentError::ProviderError(msg)) => assert_eq!(msg, "OpenRouter 429: slow down"),
        other => panic!("Expected ProviderError, got {:?}", other),
    }
    match OllamaProvider::new("m").response(500, "") {
        Err(AgentError::ProviderError(msg)) => assert_eq!(msg, "Ollama 500: "),
        other => panic!("Expected ProviderError, got {:?}", other),
    }
    let read = OpenAiProvider::new("k", "m")
        .response(200, r#"{"choices":[{"message":{"content":"hello"}}]}"#)
        .unwrap();
    assert_eq!(read.content, Some("hello".to_string()));
}

#[test]
fn tool_role_without_id_in_openai_shape() {
    let message = Message {
        role: Role::Tool,
        content: "x".to_string(),
        tool_call_id: None,
        tool_calls: None,
    };
    assert_eq!(build_openai_message(&message).to_text(), r#"{"content":"x","role":"tool"}"#);
}
