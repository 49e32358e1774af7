use mini_coding_agent::error::AgentError;
use mini_coding_agent::llm::{backoff_ms, parse_reply, retryable, DeepSeekClient, Outcome, Step};
use mini_coding_agent::renderer::{call_hint, finished_line, model_line, started_line, ConsoleRenderer};
use mini_coding_agent::json::parse_json;
use mini_coding_agent::tools::{PreparedCall, ToolEffect};

fn client() -> DeepSeekClient {
    DeepSeekClient::new("key", "https://api.deepseek.com/")
}

fn reply(status: u16, body: &str) -> Outcome {
    Outcome::Reply { status, body: body.into() }
}

const COMPLETION: &str = r#"{"choices":[{"message":{"role":"assistant","content":"hi"},"finish_reason":"stop"}],"usage":{"prompt_tokens":3,"completion_tokens":1}}"#;

#[test]
fn endpoint_joins_the_base_url() {
    let c = client();
    assert_eq!(c.endpoint(), "https://api.deepseek.com/chat/completions");
    assert_eq!(c.api_key(), "key");
    assert_eq!(c.retries(), 2);
    let trimmed = DeepSeekClient::new("k", "http://localhost:8080///");
    assert_eq!(trimmed.endpoint(), "http://localhost:8080/chat/completions");
}

#[test]
fn client_from_environment_values() {
    assert_eq!(
        DeepSeekClient::from_env(None, None).unwrap_err(),
        AgentError::Config("DEEPSEEK_API_KEY is not set".into())
    );
    let c = DeepSeekClient::from_env(Some("k".into()), None).unwrap();
    assert_eq!(c.endpoint(), "https://api.deepseek.com/chat/completions");
    let custom = DeepSeekClient::from_env(Some("k".into()), Some("http://x".into())).unwrap();
    assert_eq!(custom.endpoint(), "http://x/chat/completions");
}

#[test]
fn retry_policy() {
    assert!(retryable(429) && retryable(500) && retryable(503));
    assert!(!retryable(502) && !retryable(400));
    assert_eq!(backoff_ms(0), 250);
    assert_eq!(backoff_ms(1), 500);
    assert_eq!(backoff_ms(3), 2000);
    let c = client();
    assert!(matches!(c.next_step(0, reply(429, "slow")), Step::Retry { delay_ms: 250 }));
    assert!(matches!(c.next_step(1, reply(503, "down")), Step::Retry { delay_ms: 500 }));
    match c.next_step(2, reply(429, "slow")) {
        Step::Finished(Err(AgentError::Api { status, body })) => {
            assert_eq!(status, 429);
            assert_eq!(body, "slow");
        }
        _ => panic!("the last attempt must finish"),
    }
    match c.next_step(0, reply(401, "no")) {
        Step::Finished(Err(AgentError::Api { status, .. })) => assert_eq!(status, 401),
        _ => panic!("a client error is not retried"),
    }
    let timeout = Outcome::SendFailed { transient: true, message: "timed out".into() };
    assert!(matches!(c.next_step(0, timeout), Step::Retry { delay_ms: 250 }));
    let refused = Outcome::SendFailed { transient: false, message: "bad url".into() };
    match c.next_step(0, refused) {
        Step::Finished(Err(AgentError::Http(m))) => assert_eq!(m, "bad url"),
        _ => panic!("a permanent failure is not retried"),
    }
}

#[test]
fn successful_reply_is_parsed() {
    match client().next_step(0, reply(200, COMPLETION)) {
        Step::Finished(Ok(response)) => {
            assert_eq!(response.choices.len(), 1);
            assert_eq!(response.choices[0].message.content.as_deref(), Some("hi"));
            assert_eq!(response.choices[0].finish_reason.as_deref(), Some("stop"));
            assert_eq!(response.usage.unwrap().prompt_tokens, 3);
        }
        _ => panic!("a completion was expected"),
    }
    assert!(matches!(parse_reply("not json"), Err(AgentError::Json(_))));
    assert_eq!(
        parse_reply(r#"{"id":"x"}"#).unwrap_err(),
        AgentError::Json("response is not a chat completion".into())
    );
}

fn prepared(name: &str, arguments: &str) -> PreparedCall {
    PreparedCall {
        index: 0,
        id: "c".into(),
        name: name.into(),
        arguments: parse_json(arguments).unwrap(),
        effect: ToolEffect::ReadOnly,
    }
}

#[test]
fn console_lines() {
    assert_eq!(call_hint(&prepared("read_file", r#"{"path":"a.txt","limit":3}"#)), "  a.txt");
    assert_eq!(call_hint(&prepared("todo", r#"{"action":"list"}"#)), "  list");
    assert_eq!(call_hint(&prepared("x", r#"{"expression":12}"#)), "  12");
    assert_eq!(call_hint(&prepared("x", r#"{"other":1}"#)), "");
    let long = format!(r#"{{"command":"{}"}}"#, "a".repeat(150));
    assert_eq!(call_hint(&prepared("shell", &long)).chars().count(), 102);
    assert_eq!(
        started_line(&prepared("read_file", r#"{"path":"a.txt"}"#)),
        "\n→ read_file  a.txt"
    );
    assert_eq!(finished_line(true, 12, false), "✓ completed in 12 ms");
    assert_eq!(finished_line(false, 3, true), "✗ completed in 3 ms (cached)");
    assert_eq!(model_line(40), "  model completed in 40 ms");
    let mut renderer = ConsoleRenderer::new(false);
    assert!(!renderer.verbose());
    assert!(!renderer.shows_output(true));
    assert!(renderer.shows_output(false));
    renderer.set_verbose(true);
    assert!(renderer.verbose());
    assert!(renderer.shows_output(true));
}
