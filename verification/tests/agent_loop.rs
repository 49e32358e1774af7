use mini_coding_agent::agent::{
    build_request, canonical_arguments, safe_user_id, AgentConfig, Compaction, RunState,
    StopReason, Turn,
};
use mini_coding_agent::batch::{batch_mode, needs_approval, prepare_batch, BatchMode};
use mini_coding_agent::context::{build_context, estimate_tokens, split_complete_turns};
use mini_coding_agent::error::AgentError;
use mini_coding_agent::json::{parse_json, to_json_string};
use mini_coding_agent::memory::StoredMessage;
use mini_coding_agent::model::{
    ChatMessage, ChatResponse, Choice, FunctionCall, SessionKey, ToolCall, ToolOutput,
};
use mini_coding_agent::permission::PermissionMode;
use mini_coding_agent::tools::ToolEffect;

fn call(id: &str, name: &str, arguments: &str) -> ToolCall {
    ToolCall {
        id: id.into(),
        kind: "function".into(),
        function: FunctionCall { name: name.into(), arguments: arguments.into() },
    }
}

fn with_calls(calls: Vec<ToolCall>) -> ChatMessage {
    ChatMessage {
        role: "assistant".into(),
        content: None,
        reasoning_content: Some("I should act.".into()),
        tool_calls: Some(calls),
        tool_call_id: None,
    }
}

fn error_code(output: &ToolOutput) -> String {
    output.error.as_ref().unwrap().code.clone()
}

fn stored(seq: i64, message: ChatMessage) -> StoredMessage {
    StoredMessage { seq, message }
}

#[test]
fn direct_answer_skips_tools() {
    let config = AgentConfig::default();
    let mut state = RunState::new();
    let response = ChatResponse {
        choices: vec![Choice { message: ChatMessage::assistant("hello"), finish_reason: None }],
        usage: None,
    };
    state.check_llm_budget(&config).unwrap();
    let assistant = state.on_model_response(&config, &response).unwrap();
    match state.decide(&config, &assistant).unwrap() {
        Turn::Finish(reply) => {
            assert_eq!(reply.content, "hello");
            assert_eq!(reply.llm_calls, 1);
            assert_eq!(reply.tool_calls, 0);
            assert_eq!(reply.stop_reason, StopReason::Completed);
        }
        Turn::Execute(_) => panic!("no tools were requested"),
    }
}

#[test]
fn blank_answer_is_an_empty_response() {
    let config = AgentConfig::default();
    let mut state = RunState::new();
    assert_eq!(
        state.decide(&config, &ChatMessage::assistant("  ")).err(),
        Some(AgentError::EmptyModelResponse)
    );
    let empty = ChatResponse { choices: vec![], usage: None };
    assert_eq!(
        state.on_model_response(&config, &empty).err(),
        Some(AgentError::EmptyModelResponse)
    );
    assert_eq!(state.llm_calls, 1);
}

#[test]
fn tool_limit_stops_before_execution() {
    let mut config = AgentConfig::default();
    config.max_tool_calls = 1;
    let mut state = RunState::new();
    let message = with_calls(vec![
        call("a", "calculator", r#"{"expression":"1+1"}"#),
        call("b", "calculator", r#"{"expression":"1+1"}"#),
    ]);
    assert_eq!(
        state.decide(&config, &message).err(),
        Some(AgentError::ToolLimit(0))
    );
    assert_eq!(state.tool_calls, 0);
    let one = with_calls(vec![call("a", "calculator", r#"{"expression":"1+1"}"#)]);
    match state.decide(&config, &one).unwrap() {
        Turn::Execute(calls) => assert_eq!(calls.len(), 1),
        Turn::Finish(_) => panic!("the call was not accepted"),
    }
    assert_eq!(state.tool_calls, 1);
}

#[test]
fn llm_budget_is_enforced() {
    let mut config = AgentConfig::default();
    config.max_llm_calls = 0;
    let state = RunState::new();
    assert_eq!(
        state.check_llm_budget(&config).err(),
        Some(AgentError::LlmLimit(0))
    );
}

#[test]
fn repeated_observation_triggers_no_progress_guard() {
    let config = AgentConfig::default();
    let mut state = RunState::new();
    let same = call("one", "calculator", r#"{"expression":"1+1"}"#);
    let spaced = call("two", "calculator", r#"{ "expression" : "1+1" }"#);
    let output = r#"{"ok":true,"data":{"result":2.0}}"#;
    assert!(state.observe(&config, &same, output).is_ok());
    assert!(state.observe(&config, &spaced, output).is_ok());
    assert_eq!(state.repeated, 2);
    assert_eq!(
        state.observe(&config, &same, output).err(),
        Some(AgentError::NoProgress)
    );
    let mut fresh = RunState::new();
    assert!(fresh.observe(&config, &same, output).is_ok());
    assert!(fresh.observe(&config, &same, r#"{"ok":false}"#).is_ok());
    assert_eq!(fresh.repeated, 1);
}

#[test]
fn canonical_arguments_normalize_json() {
    assert_eq!(canonical_arguments(r#"{ "a" : 1 }"#), r#"{"a":1}"#);
    assert_eq!(canonical_arguments("{not-json"), "{not-json");
}

#[test]
fn malformed_arguments_never_execute_tool() {
    let calls = vec![call("call-3", "edit_file", "{not-json")];
    let (slots, prepared) = prepare_batch(&calls);
    assert!(prepared.is_empty());
    let results = slots.finish();
    assert_eq!(results.len(), 1);
    assert_eq!(error_code(&results[0]), "invalid_json");
}

#[test]
fn unknown_tool_is_recoverable() {
    let mut odd = call("odd", "shell", r#"{"command":"ls"}"#);
    odd.kind = "retrieval".into();
    let calls = vec![
        call("unknown", "does_not_exist", "{}"),
        call("bad", "calculator", r#"{"expression":1}"#),
        odd,
        call("ok", "calculator", r#"{"expression":"23*19"}"#),
    ];
    let (mut slots, prepared) = prepare_batch(&calls);
    assert_eq!(prepared.len(), 1);
    assert_eq!(prepared[0].index, 3);
    assert_eq!(prepared[0].id, "ok");
    assert_eq!(prepared[0].effect, ToolEffect::ReadOnly);
    slots.fill(3, ToolOutput::failure("x", "y"));
    let results = slots.finish();
    assert_eq!(error_code(&results[0]), "unknown_tool");
    assert_eq!(results[0].error.as_ref().unwrap().message, "does_not_exist");
    assert_eq!(error_code(&results[1]), "invalid_arguments");
    assert_eq!(error_code(&results[2]), "unsupported_tool_type");
    assert_eq!(results[2].error.as_ref().unwrap().message, "retrieval");
    assert_eq!(error_code(&results[3]), "x");
}

#[test]
fn denial_executes_nothing_and_returns_result() {
    let calls = vec![call(
        "call-2",
        "edit_file",
        r#"{"path":"blocked.txt","old_text":"","new_text":"no"}"#,
    )];
    let (mut slots, prepared) = prepare_batch(&calls);
    assert!(needs_approval(PermissionMode::RequireApproval));
    assert!(!needs_approval(PermissionMode::FullAccess));
    assert_eq!(batch_mode(&prepared, false), BatchMode::Denied);
    slots.deny(&prepared);
    let results = slots.finish();
    assert_eq!(error_code(&results[0]), "user_denied");
}

#[test]
fn missing_results_become_runtime_errors() {
    let calls = vec![call("a", "calculator", r#"{"expression":"1"}"#)];
    let (slots, prepared) = prepare_batch(&calls);
    assert_eq!(prepared.len(), 1);
    let results = slots.finish();
    assert_eq!(error_code(&results[0]), "runtime_error");
}

#[test]
fn read_only_batch_executes_concurrently() {
    let calls = vec![
        call("a", "calculator", r#"{"expression":"1"}"#),
        call("b", "search", r#"{"query":"rust"}"#),
        call("c", "todo", r#"{"action":"list"}"#),
    ];
    let (_, prepared) = prepare_batch(&calls);
    assert_eq!(prepared.len(), 3);
    assert_eq!(batch_mode(&prepared, true), BatchMode::Concurrent);
}

#[test]
fn mutating_batch_executes_serially_in_model_order() {
    let calls = vec![
        call("a", "calculator", r#"{"expression":"1"}"#),
        call("b", "todo", r#"{"action":"add","title":"x"}"#),
    ];
    let (_, prepared) = prepare_batch(&calls);
    assert_eq!(batch_mode(&prepared, true), BatchMode::Sequential);
    assert!(prepared[0].index < prepared[1].index);
}

#[test]
fn context_holds_prompt_summary_and_transcript() {
    let history = vec![
        stored(1, ChatMessage::user("question")),
        stored(2, ChatMessage::assistant("answer")),
    ];
    let messages = build_context("system", "earlier work", &history);
    assert_eq!(messages.len(), 4);
    assert_eq!(messages[0].content.as_deref(), Some("system"));
    assert_eq!(
        messages[1].content.as_deref(),
        Some("Session memory summary:\nearlier work")
    );
    assert_eq!(messages[2].content.as_deref(), Some("question"));
    assert_eq!(build_context("system", "", &history).len(), 3);
    let estimate = estimate_tokens(&messages[..1]);
    assert_eq!(estimate, r#"{"role":"system","content":"system"}"#.chars().count());
}

#[test]
fn compaction_keeps_the_last_turns() {
    let history = vec![
        stored(1, ChatMessage::user("old")),
        stored(2, ChatMessage::assistant("old answer")),
        stored(3, ChatMessage::user("new")),
        stored(4, ChatMessage::assistant("new answer")),
    ];
    let (old, recent) = split_complete_turns(&history, 1).unwrap();
    assert_eq!(old.len(), 2);
    assert_eq!(recent[0].seq, 3);
    assert!(split_complete_turns(&history, 2).is_none());
}

#[test]
fn compaction_counts_as_llm_call_and_preserves_summary() {
    let mut config = AgentConfig::default();
    config.compression_trigger = 1;
    config.compression_keep_turns = 1;
    let session = SessionKey::new("u", "s");
    let history = vec![
        stored(1, ChatMessage::user("old")),
        stored(2, ChatMessage::assistant("old answer")),
        stored(3, ChatMessage::user("new")),
    ];
    let mut state = RunState::new();
    match state.plan_compaction(&config, &session, &history, "before").unwrap() {
        Compaction::Summarize { request, through } => {
            assert_eq!(through, 2);
            assert_eq!(request.max_tokens, 8192);
            assert!(request.tools.is_empty());
            let prompt = request.messages[1].content.clone().unwrap();
            assert!(prompt.contains("Previous summary:\nbefore"));
            assert!(prompt.contains("old answer"));
            assert!(!prompt.contains("\"new\""));
        }
        Compaction::Skip => panic!("compaction was expected"),
    }
    let response = ChatResponse {
        choices: vec![Choice { message: ChatMessage::assistant("summary"), finish_reason: None }],
        usage: None,
    };
    assert_eq!(state.finish_compaction(&config, &response).unwrap(), "summary");
    assert_eq!(state.llm_calls, 1);
    let small = AgentConfig::default();
    assert!(matches!(
        state.plan_compaction(&small, &session, &history, "").unwrap(),
        Compaction::Skip
    ));
}

#[test]
fn requests_carry_the_run_settings() {
    let config = AgentConfig::default();
    let session = SessionKey::new("user one", "s/1");
    assert_eq!(safe_user_id(&session), "user_one-s_1");
    let request = build_request(&config, &session, vec![ChatMessage::user("hi")], vec![], 64);
    assert_eq!(request.model, "deepseek-v4-flash");
    assert!(!request.stream);
    assert_eq!(request.thinking.kind, "enabled");
    assert_eq!(request.reasoning_effort, "high");
    assert_eq!(request.user_id, "user_one-s_1");
    let json = request.to_json();
    let text = to_json_string(&json);
    assert!(text.starts_with(r#"{"model":"deepseek-v4-flash","messages":[{"role":"user","content":"hi"}],"max_tokens":64"#));
    let long = SessionKey::new(&"x".repeat(600), "s");
    assert_eq!(safe_user_id(&long).len(), 512);
}

#[test]
fn tool_result_and_reasoning_are_replayed() {
    let message = with_calls(vec![call("call-1", "calculator", r#"{"expression":"23*19"}"#)]);
    let back = ChatMessage::from_json(&message.to_json()).unwrap();
    assert_eq!(back, message);
    let text = message.to_json_text();
    let reparsed = ChatMessage::from_json(&parse_json(&text).unwrap()).unwrap();
    assert_eq!(reparsed.reasoning_content.as_deref(), Some("I should act."));
    let tool = ChatMessage::tool("call-1", r#"{"ok":true}"#);
    assert_eq!(ChatMessage::from_json(&tool.to_json()).unwrap(), tool);
}

#[test]
fn error_messages_match_the_display_text() {
    assert_eq!(AgentError::LlmLimit(80).message(), "LLM request limit reached (80)");
    assert_eq!(
        AgentError::Api { status: 429, body: "slow down".into() }.message(),
        "DeepSeek API error (429): slow down"
    );
    assert_eq!(AgentError::Deadline(3600).message(), "run exceeded 3600 seconds");
    assert_eq!(
        AgentError::Compaction("x".into()).message(),
        "context compaction failed: x"
    );
}

#[test]
fn executed_batch_answers_every_call() {
    let calls = vec![
        call("a", "calculator", r#"{"expression":"1"}"#),
        call("b", "no_such_tool", "{}"),
        call("c", "todo", r#"{"action":"list"}"#),
    ];
    let (mut slots, prepared) = prepare_batch(&calls);
    assert_eq!(prepared.len(), 2);
    let outputs = vec![
        ToolOutput::failure("first", "from a"),
        ToolOutput::failure("third", "from c"),
    ];
    slots.record(&prepared, outputs);
    let results = slots.finish();
    assert_eq!(results.len(), 3);
    assert_eq!(error_code(&results[0]), "first");
    assert_eq!(error_code(&results[1]), "unknown_tool");
    assert_eq!(error_code(&results[2]), "third");
}

#[test]
fn estimates_add_up_over_concatenation() {
    let a = vec![ChatMessage::user("hello"), ChatMessage::assistant("hi there")];
    let b = vec![ChatMessage::tool("call-1", "{}")];
    let both: Vec<ChatMessage> = [a.clone(), b.clone()].concat();
    assert_eq!(estimate_tokens(&both), estimate_tokens(&a) + estimate_tokens(&b));
    assert_eq!(estimate_tokens(&[]), 0);
    let one = ChatMessage::user("hello");
    assert_eq!(estimate_tokens(&[one.clone()]), one.to_json_text().chars().count());
}
