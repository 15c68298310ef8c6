use mini_agent::{Json, Message, Role};

#[test]
fn user_message_construction() {
    let msg = Message::user("Hello");
    assert_eq!(msg.role, Role::User);
    assert_eq!(msg.content, "Hello");
    assert!(msg.tool_call_id.is_none());
    assert!(msg.tool_calls.is_none());
}

#[test]
fn assistant_message_construction() {
    let msg = Message::assistant("Hi there");
    assert_eq!(msg.role, Role::Assistant);
    assert_eq!(msg.content, "Hi there");
    assert!(msg.tool_call_id.is_none());
    assert!(msg.tool_calls.is_none());
}

#[test]
fn assistant_with_tools_construction() {
    let calls = Json::parse(
        r#"[{ "id": "call_1", "type": "function", "function": { "name": "add_numbers", "arguments": "{\"a\":1,\"b\":2}" } }]"#,
    )
    .unwrap();
    let msg = Message::assistant_with_tools("", calls.clone());
    assert_eq!(msg.role, Role::Assistant);
    assert_eq!(msg.tool_calls, Some(calls));
}

#[test]
fn tool_message_construction() {
    let msg = Message {
        role: Role::Tool,
        content: "42".to_string(),
        tool_call_id: Some("call_1".to_string()),
        tool_calls: None,
    };
    assert_eq!(msg.role, Role::Tool);
    assert_eq!(msg.content, "42");
    assert_eq!(msg.tool_call_id, Some("call_1".to_string()));
}

#[test]
fn role_display() {
    assert_eq!(Role::User.to_string(), "user");
    assert_eq!(Role::Assistant.to_string(), "assistant");
    assert_eq!(Role::Tool.to_string(), "tool");
}

#[test]
fn role_tokens() {
    assert_eq!(Role::User.as_str(), "user");
    assert_eq!(Role::Assistant.as_str(), "assistant");
    assert_eq!(Role::Tool.as_str(), "tool");
}

#[test]
fn tool_result_construction() {
    let msg = Message::tool_result("7", "call_1");
    assert_eq!(msg.role, Role::Tool);
    assert_eq!(msg.content, "7");
    assert_eq!(msg.tool_call_id, Some("call_1".to_string()));
    assert!(msg.tool_calls.is_none());
}

#[test]
fn message_clone_keeps_every_field() {
    let calls = Json::parse(r#"[{"id":"c"}]"#).unwrap();
    let msg = Message::assistant_with_tools("text", calls);
    let copy = msg.clone();
    assert_eq!(copy.role, msg.role);
    assert_eq!(copy.content, msg.content);
    assert_eq!(copy.tool_call_id, msg.tool_call_id);
    assert_eq!(copy.tool_calls.unwrap().to_text(), msg.tool_calls.unwrap().to_text());
}
