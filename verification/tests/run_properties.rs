use mini_agent::machine::{Action, Event, Run};
use mini_agent::{
    AddNumbersTool, Agent, AgentError, Completion, Json, LlmProvider, Message, MultiplyNumbersTool,
    Role, Tool, ToolCall,
};
use std::sync::{Arc, Mutex};

fn call(id: &str, name: &str, args: &str) -> ToolCall {
    ToolCall { id: id.to_string(), name: name.to_string(), args: Json::parse(args).unwrap() }
}

fn asks(content: Option<&str>, calls: Vec<ToolCall>) -> Completion {
    Completion { content: content.map(|c| c.to_string()), tool_calls: calls, raw_tool_calls: None }
}

// A backend that answers from a script and keeps what it was sent.
struct Scripted {
    script: Mutex<Vec<Result<Completion, AgentError>>>,
    seen: Arc<Mutex<Vec<Vec<Message>>>>,
    offered: Arc<Mutex<Vec<Vec<String>>>>,
}

impl Scripted {
    fn new(mut script: Vec<Result<Completion, AgentError>>) -> Scripted {
        script.reverse();
        Scripted {
            script: Mutex::new(script),
            seen: Arc::new(Mutex::new(vec![])),
            offered: Arc::new(Mutex::new(vec![])),
        }
    }
}

impl LlmProvider for Scripted {
    fn provider_name(&self) -> &str {
        "Scripted"
    }

    fn complete(
        &self,
        messages: &[Message],
        tools: &[&dyn Tool],
        _model: &str,
    ) -> Result<Completion, AgentError> {
        self.seen.lock().unwrap().push(messages.to_vec());
        self.offered.lock().unwrap().push(tools.iter().map(|t| t.name().to_string()).collect());
        self.script.lock().unwrap().pop().expect("one request too many")
    }
}

// A backend that asks for a new call in every step and never brings text.
struct Endless {
    requests: Arc<Mutex<usize>>,
}

impl LlmProvider for Endless {
    fn provider_name(&self) -> &str {
        "Endless"
    }

    fn complete(
        &self,
        _messages: &[Message],
        _tools: &[&dyn Tool],
        _model: &str,
    ) -> Result<Completion, AgentError> {
        let mut requests = self.requests.lock().unwrap();
        *requests += 1;
        Ok(asks(None, vec![call(&format!("call_{}", *requests), "add_numbers", r#"{"a":1,"b":1}"#)]))
    }
}

// A tool that counts how often it runs.
struct Counting {
    runs: Arc<Mutex<usize>>,
}

impl Tool for Counting {
    fn name(&self) -> &'static str {
        "count"
    }

    fn description(&self) -> &'static str {
        "Counts its runs"
    }

    fn parameters_schema(&self) -> Json {
        Json::Object(vec![])
    }

    fn execute(&self, _args: Json) -> Result<String, AgentError> {
        let mut runs = self.runs.lock().unwrap();
        *runs += 1;
        Ok(format!("run {}", *runs))
    }
}

// A tool that always fails.
struct Failing;

impl Tool for Failing {
    fn name(&self) -> &'static str {
        "fail"
    }

    fn description(&self) -> &'static str {
        "Fails"
    }

    fn parameters_schema(&self) -> Json {
        Json::Object(vec![])
    }

    fn execute(&self, _args: Json) -> Result<String, AgentError> {
        Err(AgentError::ToolError("broken".to_string()))
    }
}

fn roles(agent: &Agent) -> Vec<Role> {
    agent.history.iter().map(|m| m.role).collect()
}

#[test]
fn text_alone_is_returned_after_one_request() {
    let provider = Scripted::new(vec![Ok(asks(Some("final text"), vec![]))]);
    let seen = provider.seen.clone();
    let mut agent = Agent::new(Box::new(provider), "m");
    assert_eq!(agent.run("question").unwrap(), "final text");
    assert_eq!(seen.lock().unwrap().len(), 1);
    assert_eq!(roles(&agent), vec![Role::User, Role::Assistant]);
}

#[test]
fn empty_completion_fails_with_empty_response() {
    for content in [None, Some("")] {
        let provider = Scripted::new(vec![Ok(asks(content, vec![]))]);
        let mut agent = Agent::new(Box::new(provider), "m");
        match agent.run("question") {
            Err(AgentError::ProviderError(msg)) => assert_eq!(msg, "empty response"),
            other => panic!("Expected ProviderError, got {:?}", other),
        }
        assert_eq!(roles(&agent), vec![Role::User, Role::Assistant]);
        assert_eq!(agent.history[1].content, "");
        assert_eq!(agent.history[1].tool_calls.as_ref().unwrap().to_text(), "null");
    }
}

#[test]
fn an_executed_id_is_not_executed_again() {
    let runs = Arc::new(Mutex::new(0));
    let provider = Scripted::new(vec![
        Ok(asks(None, vec![call("c1", "count", "{}")])),
        Ok(asks(Some("done"), vec![call("c1", "count", "{}")])),
    ]);
    let seen = provider.seen.clone();
    let mut agent = Agent::new(Box::new(provider), "m");
    agent.add_tool(Counting { runs: runs.clone() });
    assert_eq!(agent.run("go").unwrap(), "done");
    assert_eq!(*runs.lock().unwrap(), 1);
    assert_eq!(seen.lock().unwrap().len(), 2);
    assert_eq!(roles(&agent), vec![Role::User, Role::Assistant, Role::Tool, Role::Assistant]);
}

#[test]
fn a_stale_request_without_text_is_an_empty_response() {
    let runs = Arc::new(Mutex::new(0));
    let provider = Scripted::new(vec![
        Ok(asks(None, vec![call("c1", "count", "{}")])),
        Ok(asks(None, vec![call("c1", "count", "{}")])),
    ]);
    let mut agent = Agent::new(Box::new(provider), "m");
    agent.add_tool(Counting { runs: runs.clone() });
    match agent.run("go") {
        Err(AgentError::ProviderError(msg)) => assert_eq!(msg, "empty response"),
        other => panic!("Expected ProviderError, got {:?}", other),
    }
    assert_eq!(*runs.lock().unwrap(), 1);
}

#[test]
fn a_stale_id_beside_a_new_one_is_passed_over() {
    let runs = Arc::new(Mutex::new(0));
    let provider = Scripted::new(vec![
        Ok(asks(None, vec![call("c1", "count", "{}")])),
        Ok(asks(Some("ignored for now"), vec![call("c1", "count", "{}"), call("c2", "count", "{}")])),
        Ok(asks(Some("done"), vec![])),
    ]);
    let mut agent = Agent::new(Box::new(provider), "m");
    agent.add_tool(Counting { runs: runs.clone() });
    assert_eq!(agent.run("go").unwrap(), "done");
    assert_eq!(*runs.lock().unwrap(), 2);
    let answered: Vec<Option<String>> =
        agent.history.iter().filter(|m| m.role == Role::Tool).map(|m| m.tool_call_id.clone()).collect();
    assert_eq!(answered, vec![Some("c1".to_string()), Some("c2".to_string())]);
}

#[test]
fn an_id_twice_in_one_completion_runs_once() {
    let runs = Arc::new(Mutex::new(0));
    let provider = Scripted::new(vec![
        Ok(asks(None, vec![call("same", "count", "{}"), call("same", "count", "{}")])),
        Ok(asks(Some("done"), vec![])),
    ]);
    let mut agent = Agent::new(Box::new(provider), "m");
    agent.add_tool(Counting { runs: runs.clone() });
    assert_eq!(agent.run("go").unwrap(), "done");
    assert_eq!(*runs.lock().unwrap(), 1);
}

#[test]
fn all_new_calls_of_a_step_run_before_the_next_request() {
    let provider = Scripted::new(vec![
        Ok(asks(
            None,
            vec![
                call("c1", "add_numbers", r#"{"a":1,"b":2}"#),
                call("c2", "multiply_numbers", r#"{"a":3,"b":4}"#),
            ],
        )),
        Ok(asks(Some("3 and 12"), vec![])),
    ]);
    let seen = provider.seen.clone();
    let mut agent = Agent::new(Box::new(provider), "m");
    agent.add_tool(AddNumbersTool);
    agent.add_tool(MultiplyNumbersTool);
    assert_eq!(agent.run("compute").unwrap(), "3 and 12");
    let seen = seen.lock().unwrap();
    assert_eq!(seen.len(), 2);
    let second: Vec<(Role, String)> = seen[1].iter().map(|m| (m.role, m.content.clone())).collect();
    assert_eq!(
        second[2..].to_vec(),
        vec![
            (Role::Assistant, "".to_string()),
            (Role::Tool, "3".to_string()),
            (Role::Tool, "12".to_string()),
        ]
    );
}

#[test]
fn endless_calls_exhaust_the_bound() {
    for max_steps in [1usize, 3, 6] {
        let requests = Arc::new(Mutex::new(0));
        let mut agent =
            Agent::new(Box::new(Endless { requests: requests.clone() }), "m").with_max_steps(max_steps);
        agent.add_tool(AddNumbersTool);
        match agent.run("loop") {
            Err(AgentError::MaxIterations) => {}
            other => panic!("Expected MaxIterations, got {:?}", other),
        }
        assert_eq!(*requests.lock().unwrap(), max_steps);
        assert_eq!(agent.history.len(), 1 + 2 * max_steps);
    }
}

#[test]
fn default_bound_is_six_requests() {
    let requests = Arc::new(Mutex::new(0));
    let mut agent = Agent::new(Box::new(Endless { requests: requests.clone() }), "m");
    agent.add_tool(AddNumbersTool);
    assert!(matches!(agent.run("loop"), Err(AgentError::MaxIterations)));
    assert_eq!(*requests.lock().unwrap(), 6);
}

#[test]
fn a_bound_of_zero_requests_nothing() {
    let requests = Arc::new(Mutex::new(0));
    let mut agent = Agent::new(Box::new(Endless { requests: requests.clone() }), "m").with_max_steps(0);
    assert!(matches!(agent.run("loop"), Err(AgentError::MaxIterations)));
    assert_eq!(*requests.lock().unwrap(), 0);
    assert_eq!(roles(&agent), vec![Role::User]);
}

#[test]
fn an_unknown_tool_stops_the_run_at_once() {
    let provider = Scripted::new(vec![Ok(asks(
        Some("text that does not count"),
        vec![call("c1", "does_not_exist", "{}"), call("c2", "add_numbers", r#"{"a":1,"b":1}"#)],
    ))]);
    let seen = provider.seen.clone();
    let mut agent = Agent::new(Box::new(provider), "m");
    agent.add_tool(AddNumbersTool);
    match agent.run("go") {
        Err(AgentError::ToolNotFound(name)) => assert_eq!(name, "does_not_exist"),
        other => panic!("Expected ToolNotFound, got {:?}", other),
    }
    assert_eq!(seen.lock().unwrap().len(), 1);
    assert_eq!(roles(&agent), vec![Role::User, Role::Assistant]);
}

#[test]
fn a_failed_tool_leaves_no_turn() {
    let provider = Scripted::new(vec![Ok(asks(None, vec![call("c1", "fail", "{}")]))]);
    let seen = provider.seen.clone();
    let mut agent = Agent::new(Box::new(provider), "m");
    agent.add_tool(Failing);
    match agent.run("go") {
        Err(AgentError::ToolError(msg)) => assert_eq!(msg, "broken"),
        other => panic!("Expected ToolError, got {:?}", other),
    }
    assert_eq!(seen.lock().unwrap().len(), 1);
    assert_eq!(roles(&agent), vec![Role::User, Role::Assistant]);
}

#[test]
fn a_missing_operand_fails_the_run_and_names_it() {
    let provider =
        Scripted::new(vec![Ok(asks(None, vec![call("c1", "add_numbers", r#"{"b":5}"#)]))]);
    let mut agent = Agent::new(Box::new(provider), "m");
    agent.add_tool(AddNumbersTool);
    match agent.run("go") {
        Err(AgentError::ToolError(msg)) => assert!(msg.contains("'a'")),
        other => panic!("Expected ToolError, got {:?}", other),
    }
}

#[test]
fn backend_failures_name_the_backend_and_the_step() {
    let provider = Scripted::new(vec![
        Ok(asks(None, vec![call("c1", "add_numbers", r#"{"a":1,"b":2}"#)])),
        Err(AgentError::InvalidResponse("missing 'choices'".to_string())),
    ]);
    let mut agent = Agent::new(Box::new(provider), "m");
    agent.add_tool(AddNumbersTool);
    match agent.run("go") {
        Err(AgentError::InvalidResponse(msg)) => {
            assert_eq!(msg, "Scripted (step 1): missing 'choices'")
        }
        other => panic!("Expected InvalidResponse, got {:?}", other),
    }
    assert_eq!(roles(&agent), vec![Role::User, Role::Assistant, Role::Tool]);

    let provider = Scripted::new(vec![Err(AgentError::LlmError("timed out".to_string()))]);
    let mut agent = Agent::new(Box::new(provider), "m");
    match agent.run("go") {
        Err(AgentError::LlmError(msg)) => assert_eq!(msg, "Scripted (step 0): timed out"),
        other => panic!("Expected LlmError, got {:?}", other),
    }
}

#[test]
fn the_instruction_is_sent_and_not_kept() {
    let provider = Scripted::new(vec![
        Ok(asks(None, vec![call("c1", "add_numbers", r#"{"a":1,"b":2}"#)])),
        Ok(asks(Some("3"), vec![])),
    ]);
    let seen = provider.seen.clone();
    let offered = provider.offered.clone();
    let mut agent = Agent::new(Box::new(provider), "m").with_system_prompt("Be brief.");
    agent.add_tool(AddNumbersTool);
    agent.add_tool(MultiplyNumbersTool);
    agent.run("1 + 2?").unwrap();
    let seen = seen.lock().unwrap();
    let first: Vec<(Role, String)> = seen[0].iter().map(|m| (m.role, m.content.clone())).collect();
    assert_eq!(
        first,
        vec![(Role::User, "Be brief.".to_string()), (Role::User, "1 + 2?".to_string())]
    );
    assert_eq!(seen[1].len(), 4);
    assert_eq!(seen[1][0].content, "Be brief.");
    assert!(agent.history.iter().all(|m| m.content != "Be brief."));
    let names = vec!["add_numbers".to_string(), "multiply_numbers".to_string()];
    assert_eq!(*offered.lock().unwrap(), vec![names.clone(), names]);
}

#[test]
fn the_first_of_two_tools_with_one_name_runs() {
    let first = Arc::new(Mutex::new(0));
    let second = Arc::new(Mutex::new(0));
    let provider = Scripted::new(vec![
        Ok(asks(None, vec![call("c1", "count", "{}")])),
        Ok(asks(Some("done"), vec![])),
    ]);
    let mut agent = Agent::new(Box::new(provider), "m");
    agent.add_tool(Counting { runs: first.clone() });
    agent.add_tool(Counting { runs: second.clone() });
    agent.run("go").unwrap();
    assert_eq!((*first.lock().unwrap(), *second.lock().unwrap()), (1, 0));
}

#[test]
fn the_machine_asks_for_what_is_due() {
    let names = vec!["add_numbers".to_string()];
    let run = Run::start(vec![Message::user("earlier")], "now", names, "P", "Hint", 2);
    assert!(matches!(run.action(), Action::Complete));
    let sent: Vec<String> = run.transmitted().iter().map(|m| m.content.clone()).collect();
    assert_eq!(sent, vec!["Hint", "earlier", "now"]);

    let run = run.advance(Event::Reply(Ok(asks(
        Some("thinking"),
        vec![call("c1", "add_numbers", r#"{"a":2,"b":2}"#)],
    ))));
    match run.action() {
        Action::Execute { tool, args } => {
            assert_eq!(tool, 0);
            assert_eq!(args.to_text(), r#"{"a":2,"b":2}"#);
        }
        other => panic!("Expected Execute, got {:?}", other),
    }

    let run = run.advance(Event::Outcome(Ok("4".to_string())));
    assert!(matches!(run.action(), Action::Complete));
    assert_eq!(run.history().len(), 4);

    let run = run.advance(Event::Reply(Ok(asks(Some("It is 4"), vec![]))));
    assert!(matches!(run.action(), Action::Stop));
    let (history, result) = run.finish();
    assert_eq!(history.len(), 5);
    assert_eq!(result.unwrap().unwrap(), "It is 4");
}

#[test]
fn the_machine_ignores_what_it_does_not_wait_for() {
    let run = Run::start(vec![], "now", vec![], "P", "Hint", 2);
    let run = run.advance(Event::Outcome(Ok("stray".to_string())));
    assert!(matches!(run.action(), Action::Complete));
    assert_eq!(run.history().len(), 1);

    let run = run.advance(Event::Reply(Ok(asks(Some("done"), vec![]))));
    let run = run.advance(Event::Reply(Ok(asks(Some("again"), vec![]))));
    let run = run.advance(Event::Outcome(Err(AgentError::MaxIterations)));
    let (history, result) = run.finish();
    assert_eq!(history.len(), 2);
    assert_eq!(result.unwrap().unwrap(), "done");
}

#[test]
fn a_machine_that_has_not_ended_has_no_result() {
    let run = Run::start(vec![], "now", vec![], "P", "Hint", 1);
    let (history, result) = run.finish();
    assert_eq!(history.len(), 1);
    assert!(result.is_none());
}

#[test]
fn the_last_step_may_still_run_its_calls() {
    let runs = Arc::new(Mutex::new(0));
    let provider = Scripted::new(vec![Ok(asks(
        Some("text"),
        vec![call("c1", "count", "{}"), call("c2", "count", "{}")],
    ))]);
    let mut agent = Agent::new(Box::new(provider), "m").with_max_steps(1);
    agent.add_tool(Counting { runs: runs.clone() });
    assert!(matches!(agent.run("go"), Err(AgentError::MaxIterations)));
    assert_eq!(*runs.lock().unwrap(), 2);
    assert_eq!(roles(&agent), vec![Role::User, Role::Assistant, Role::Tool, Role::Tool]);
}
