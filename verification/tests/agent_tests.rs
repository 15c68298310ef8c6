use mini_agent::{
    AddNumbersTool, Agent, AgentError, Completion, Json, LlmProvider, Message, MultiplyNumbersTool,
    Role, Tool, ToolCall,
};
use std::sync::{Arc, Mutex};

// A backend that answers every request with the same text.
struct MockProvider {
    response: String,
}

impl LlmProvider for MockProvider {
    fn provider_name(&self) -> &str {
        "Mock"
    }

    fn complete(
        &self,
        _messages: &[Message],
        _tools: &[&dyn Tool],
        _model: &str,
    ) -> Result<Completion, AgentError> {
        Ok(Completion {
            content: Some(self.response.clone()),
            tool_calls: vec![],
            raw_tool_calls: None,
        })
    }
}

// A backend that fails every request.
struct ErrorProvider;

impl LlmProvider for ErrorProvider {
    fn provider_name(&self) -> &str {
        "ErrorMock"
    }

    fn complete(
        &self,
        _messages: &[Message],
        _tools: &[&dyn Tool],
        _model: &str,
    ) -> Result<Completion, AgentError> {
        Err(AgentError::ProviderError("Simulated provider failure".into()))
    }
}

// A backend that answers with neither text nor calls.
struct EmptyProvider;

impl LlmProvider for EmptyProvider {
    fn provider_name(&self) -> &str {
        "EmptyMock"
    }

    fn complete(
        &self,
        _messages: &[Message],
        _tools: &[&dyn Tool],
        _model: &str,
    ) -> Result<Completion, AgentError> {
        Ok(Completion { content: None, tool_calls: vec![], raw_tool_calls: None })
    }
}

// A backend that asks for one call and then answers.
struct ToolCallingProvider {
    call_count: Arc<Mutex<usize>>,
}

impl LlmProvider for ToolCallingProvider {
    fn provider_name(&self) -> &str {
        "ToolCallingMock"
    }

    fn complete(
        &self,
        _messages: &[Message],
        _tools: &[&dyn Tool],
        _model: &str,
    ) -> Result<Completion, AgentError> {
        let mut count = self.call_count.lock().unwrap();
        *count += 1;
        if *count == 1 {
            Ok(Completion {
                content: None,
                tool_calls: vec![ToolCall {
                    id: "call_abc".to_string(),
                    name: "add_numbers".to_string(),
                    args: Json::parse(r#"{ "a": 10, "b": 20 }"#).unwrap(),
                }],
                raw_tool_calls: Some(
                    Json::parse(
                        r#"[{
                            "id": "call_abc",
                            "type": "function",
                            "function": { "name": "add_numbers", "arguments": "{\"a\":10,\"b\":20}" }
                        }]"#,
                    )
                    .unwrap(),
                ),
            })
        } else {
            Ok(Completion {
                content: Some("The answer is 30".to_string()),
                tool_calls: vec![],
                raw_tool_calls: None,
            })
        }
    }
}

#[test]
fn agent_default_config() {
    let provider = MockProvider { response: "hi".into() };
    let agent = Agent::new(Box::new(provider), "test-model");
    assert_eq!(agent.model, "test-model");
    assert_eq!(agent.max_steps, 6);
    assert!(agent.history.is_empty());
    assert!(agent.tools.is_empty());
    assert!(!agent.system_prompt.is_empty());
}

#[test]
fn agent_with_max_steps() {
    let provider = MockProvider { response: "hi".into() };
    let agent = Agent::new(Box::new(provider), "test-model").with_max_steps(20);
    assert_eq!(agent.max_steps, 20);
}

#[test]
fn agent_with_system_prompt() {
    let provider = MockProvider { response: "hi".into() };
    let agent =
        Agent::new(Box::new(provider), "test-model").with_system_prompt("Custom prompt here");
    assert_eq!(agent.system_prompt, "Custom prompt here");
}

#[test]
fn agent_add_tool_increases_count() {
    let provider = MockProvider { response: "hi".into() };
    let mut agent = Agent::new(Box::new(provider), "test-model");
    assert_eq!(agent.tools.len(), 0);
    agent.add_tool(AddNumbersTool);
    assert_eq!(agent.tools.len(), 1);
    agent.add_tool(MultiplyNumbersTool);
    assert_eq!(agent.tools.len(), 2);
}

#[test]
fn agent_run_returns_text_response() {
    let provider = MockProvider { response: "Hello from mock!".into() };
    let mut agent = Agent::new(Box::new(provider), "test-model");
    let result = agent.run("Say hello").unwrap();
    assert_eq!(result, "Hello from mock!");
}

#[test]
fn agent_run_appends_to_history() {
    let provider = MockProvider { response: "42".into() };
    let mut agent = Agent::new(Box::new(provider), "test-model");
    agent.run("What is 6 x 7?").unwrap();
    assert!(agent.history.len() >= 2);
    assert_eq!(agent.history[0].content, "What is 6 x 7?");
}

#[test]
fn agent_run_propagates_provider_error() {
    let mut agent = Agent::new(Box::new(ErrorProvider), "test-model");
    let result = agent.run("anything");
    assert!(result.is_err());
    match result.unwrap_err() {
        AgentError::ProviderError(msg) => assert!(msg.contains("Simulated provider failure")),
        _ => panic!("Expected ProviderError"),
    }
}

#[test]
fn agent_run_empty_response_returns_error() {
    let mut agent = Agent::new(Box::new(EmptyProvider), "test-model");
    let result = agent.run("anything");
    assert!(result.is_err());
    match result.unwrap_err() {
        AgentError::ProviderError(msg) => assert!(msg.contains("empty response")),
        _ => panic!("Expected ProviderError for empty response"),
    }
}

#[test]
fn agent_executes_tool_and_returns_answer() {
    let call_count = Arc::new(Mutex::new(0));
    let provider = ToolCallingProvider { call_count: call_count.clone() };
    let mut agent = Agent::new(Box::new(provider), "test-model");
    agent.add_tool(AddNumbersTool);

    let result = agent.run("Add 10 and 20").unwrap();
    assert_eq!(result, "The answer is 30");
    assert_eq!(*call_count.lock().unwrap(), 2);
}

#[test]
fn agent_history_includes_tool_result() {
    let call_count = Arc::new(Mutex::new(0));
    let provider = ToolCallingProvider { call_count };
    let mut agent = Agent::new(Box::new(provider), "test-model");
    agent.add_tool(AddNumbersTool);

    agent.run("Add 10 and 20").unwrap();

    let roles: Vec<String> = agent.history.iter().map(|m| m.role.to_string()).collect();
    assert!(roles.contains(&"user".to_string()));
    assert!(roles.contains(&"tool".to_string()));
    assert!(roles.contains(&"assistant".to_string()));
}

#[test]
fn agent_tool_not_found_returns_error() {
    let provider = ToolCallingProvider { call_count: Arc::new(Mutex::new(0)) };
    let mut agent = Agent::new(Box::new(provider), "test-model");

    let result = agent.run("Add 10 and 20");
    assert!(result.is_err());
    match result.unwrap_err() {
        AgentError::ToolNotFound(name) => assert_eq!(name, "add_numbers"),
        _ => panic!("Expected ToolNotFound"),
    }
}

#[test]
fn history_after_a_tool_call_is_exact() {
    let provider = ToolCallingProvider { call_count: Arc::new(Mutex::new(0)) };
    let mut agent = Agent::new(Box::new(provider), "test-model");
    agent.add_tool(AddNumbersTool);
    agent.run("Add 10 and 20").unwrap();

    let turns: Vec<(Role, String, Option<String>, Option<String>)> = agent
        .history
        .iter()
        .map(|m| {
            (
                m.role,
                m.content.clone(),
                m.tool_call_id.clone(),
                m.tool_calls.as_ref().map(|calls| calls.to_text()),
            )
        })
        .collect();
    let recorded = r#"[{"function":{"arguments":"{\"a\":10,\"b\":20}","name":"add_numbers"},"id":"call_abc","type":"function"}]"#;
    assert_eq!(
        turns,
        vec![
            (Role::User, "Add 10 and 20".to_string(), None, None),
            (Role::Assistant, "".to_string(), None, Some(recorded.to_string())),
            (Role::Tool, "30".to_string(), Some("call_abc".to_string()), None),
            (Role::Assistant, "The answer is 30".to_string(), None, Some("null".to_string())),
        ]
    );
}

#[test]
fn agents_with_named_types_need_no_boxes() {
    let mut agent: Agent<MockProvider, AddNumbersTool> =
        Agent::for_provider(MockProvider { response: "plain".into() }, "m");
    agent.register(AddNumbersTool);
    assert_eq!(agent.tools.len(), 1);
    assert_eq!(agent.run("hello").unwrap(), "plain");
    assert_eq!(agent.history.len(), 2);
}

#[test]
fn a_second_run_continues_the_conversation() {
    let provider = MockProvider { response: "again".into() };
    let mut agent = Agent::new(Box::new(provider), "test-model");
    agent.run("first").unwrap();
    agent.run("second").unwrap();
    let contents: Vec<&str> = agent.history.iter().map(|m| m.content.as_str()).collect();
    assert_eq!(contents, vec!["first", "again", "second", "again"]);
}
