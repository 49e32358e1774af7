//! The errors that end an agent run.

use vstd::prelude::*;

use crate::model::owned;
use crate::text::{decimal, decimal_chars, push_chars, push_str};

verus! {

/// Why a run, a request or a store operation failed.
#[derive(Debug, Clone, PartialEq, Eq)]
pub enum AgentError {
    Config(String),
    Api { status: u16, body: String },
    Http(String),
    Database(String),
    Json(String),
    Io(String),
    EmptyModelResponse,
    LlmLimit(usize),
    ToolLimit(usize),
    NoProgress,
    Deadline(u64),
    Cancelled,
    Compaction(String),
}

/// The result type of fallible operations of the crate.
pub type Result<T> = std::result::Result<T, AgentError>;

/// The human-readable message of an error.
pub open spec fn error_message(e: AgentError) -> Seq<char> {
    match e {
        AgentError::Config(m) => "configuration error: "@ + m@,
        AgentError::Api { status, body } => "DeepSeek API error ("@ + decimal(status as nat)
            + "): "@ + body@,
        AgentError::Http(m) => "HTTP error: "@ + m@,
        AgentError::Database(m) => "database error: "@ + m@,
        AgentError::Json(m) => "JSON error: "@ + m@,
        AgentError::Io(m) => "I/O error: "@ + m@,
        AgentError::EmptyModelResponse => "model returned no answer or tool call"@,
        AgentError::LlmLimit(n) => "LLM request limit reached ("@ + decimal(n as nat) + ")"@,
        AgentError::ToolLimit(n) => "tool call limit reached ("@ + decimal(n as nat) + ")"@,
        AgentError::NoProgress => "repeated tool call made no progress"@,
        AgentError::Deadline(s) => "run exceeded "@ + decimal(s as nat) + " seconds"@,
        AgentError::Cancelled => "request stopped by user"@,
        AgentError::Compaction(m) => "context compaction failed: "@ + m@,
    }
}

/// Whether `e` is a compaction failure with the given message.
pub open spec fn is_compaction_error(e: AgentError, message: Seq<char>) -> bool {
    e matches AgentError::Compaction(m) && m@ == message
}

/// Whether `e` is a configuration error with the given message.
pub open spec fn is_config_error(e: AgentError, message: Seq<char>) -> bool {
    e matches AgentError::Config(m) && m@ == message
}

/// A configuration error whose message is `prefix` followed by `detail`.
pub fn config_error(prefix: &str, detail: &str) -> (e: AgentError)
    ensures
        is_config_error(e, prefix@ + detail@),
{
    let mut m = owned(prefix);
    push_str(&mut m, detail);
    AgentError::Config(m)
}

/// `prefix` followed by the decimal form of `n` and then `suffix`.
fn with_number(prefix: &str, n: u64, suffix: &str) -> (r: String)
    ensures
        r@ == prefix@ + decimal(n as nat) + suffix@,
{
    let mut s = owned(prefix);
    push_chars(&mut s, &decimal_chars(n));
    push_str(&mut s, suffix);
    s
}

/// `prefix` followed by `text`.
fn with_text(prefix: &str, text: &String) -> (r: String)
    ensures
        r@ == prefix@ + text@,
{
    let mut s = owned(prefix);
    push_str(&mut s, text.as_str());
    s
}

impl AgentError {
    /// The human-readable message of this error (what `Display` shows).
    pub fn message(&self) -> (r: String)
        ensures
            r@ == error_message(*self),
    {
        match self {
            AgentError::Config(m) => with_text("configuration error: ", m),
            AgentError::Api { status, body } => {
                let mut s = with_number("DeepSeek API error (", *status as u64, "): ");
                push_str(&mut s, body.as_str());
                s
            },
            AgentError::Http(m) => with_text("HTTP error: ", m),
            AgentError::Database(m) => with_text("database error: ", m),
            AgentError::Json(m) => with_text("JSON error: ", m),
            AgentError::Io(m) => with_text("I/O error: ", m),
            AgentError::EmptyModelResponse => owned("model returned no answer or tool call"),
            AgentError::LlmLimit(n) => with_number("LLM request limit reached (", *n as u64, ")"),
            AgentError::ToolLimit(n) => with_number("tool call limit reached (", *n as u64, ")"),
            AgentError::NoProgress => owned("repeated tool call made no progress"),
            AgentError::Deadline(s) => with_number("run exceeded ", *s, " seconds"),
            AgentError::Cancelled => owned("request stopped by user"),
            AgentError::Compaction(m) => with_text("context compaction failed: ", m),
        }
    }
}

} // verus!
