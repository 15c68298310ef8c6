use mini_agent::AgentError;

#[test]
fn tool_not_found_display() {
    let err = AgentError::ToolNotFound("my_tool".to_string());
    assert!(err.to_string().contains("my_tool"));
}

#[test]
fn tool_error_display() {
    let err = AgentError::ToolError("bad input".to_string());
    assert!(err.to_string().contains("bad input"));
}

#[test]
fn max_iterations_display() {
    let err = AgentError::MaxIterations;
    assert!(!err.to_string().is_empty());
}

#[test]
fn invalid_response_display() {
    let err = AgentError::InvalidResponse("missing field".to_string());
    assert!(err.to_string().contains("missing field"));
}

#[test]
fn provider_error_display() {
    let err = AgentError::ProviderError("timeout".to_string());
    assert!(err.to_string().contains("timeout"));
}

#[test]
fn json_error_from_serde() {
    let bad_json = "{ not valid }";
    let serde_err = serde_json::from_str::<serde_json::Value>(bad_json).unwrap_err();
    let agent_err: AgentError = serde_err.into();
    assert!(matches!(agent_err, AgentError::Json(_)));
}

#[test]
fn json_error_keeps_the_message() {
    let serde_err = serde_json::from_str::<serde_json::Value>("{ not valid }").unwrap_err();
    let message = serde_err.to_string();
    match AgentError::from(serde_err) {
        AgentError::Json(kept) => assert_eq!(kept, message),
        other => panic!("Expected Json, got {:?}", other),
    }
}

#[test]
fn every_description_is_exact() {
    assert_eq!(AgentError::LlmError("x".into()).to_string(), "LLM request failed: x");
    assert_eq!(AgentError::Json("x".into()).to_string(), "JSON error: x");
    assert_eq!(
        AgentError::InvalidResponse("x".into()).to_string(),
        "Invalid response from LLM: x"
    );
    assert_eq!(AgentError::ProviderError("x".into()).to_string(), "Provider error: x");
    assert_eq!(AgentError::ToolNotFound("x".into()).to_string(), "Tool not found: x");
    assert_eq!(AgentError::ToolError("x".into()).to_string(), "Tool execution failed: x");
    assert_eq!(AgentError::MaxIterations.to_string(), "Max iterations reached");
}

#[test]
fn prefix_goes_before_the_message() {
    match AgentError::InvalidResponse("missing 'choices'".into()).prefixed("OpenAI (step 2): ") {
        AgentError::InvalidResponse(msg) => assert_eq!(msg, "OpenAI (step 2): missing 'choices'"),
        other => panic!("Expected InvalidResponse, got {:?}", other),
    }
    assert!(matches!(AgentError::MaxIterations.prefixed("x"), AgentError::MaxIterations));
}

#[test]
fn clone_keeps_variant_and_message() {
    match AgentError::ToolError("boom".into()).clone() {
        AgentError::ToolError(msg) => assert_eq!(msg, "boom"),
        other => panic!("Expected ToolError, got {:?}", other),
    }
}
