//! The DeepSeek chat-completions client's decisions: the endpoint it posts
//! to, which failures are retried and after how long, and what a reply
//! means. The application sends the requests and sleeps between attempts.

use vstd::prelude::*;

use crate::error::AgentError;
use crate::json::{json_parse, member_value, parse_json, Json};
use crate::model::{choice_message, opt_view, owned, ChatResponse};
use crate::text::{chars_of, push_str, string_of};

verus! {

/// The API endpoint used unless the environment names another.
pub const DEFAULT_BASE_URL: &'static str = "https://api.deepseek.com";

/// How many times a failed request is tried again.
pub const DEFAULT_RETRIES: usize = 2;

/// The message of a reply body that is JSON but not a chat completion.
pub const SHAPE_ERROR: &'static str = "response is not a chat completion";

/// `s` without trailing `/` characters.
pub open spec fn trim_end_slashes(s: Seq<char>) -> Seq<char>
    decreases s.len(),
{
    if s.len() > 0 && s.last() == '/' {
        trim_end_slashes(s.drop_last())
    } else {
        s
    }
}

/// The completions endpoint under a base URL.
pub open spec fn endpoint_spec(base_url: Seq<char>) -> Seq<char> {
    trim_end_slashes(base_url) + "/chat/completions"@
}

/// Whether an HTTP status is a success (2xx).
pub open spec fn is_success_status(status: u16) -> bool {
    200 <= status <= 299
}

/// Whether a failed status is worth another attempt: rate limiting and
/// transient server errors.
pub open spec fn retryable_spec(status: u16) -> bool {
    status == 429 || status == 500 || status == 503
}

/// `2` to the power `n`.
pub open spec fn doubling(n: nat) -> nat
    decreases n,
{
    if n == 0 {
        1
    } else {
        2 * doubling((n - 1) as nat)
    }
}

/// The pause before attempt `attempt + 1`: 250 ms, doubled for each earlier
/// retry.
pub open spec fn backoff_spec(attempt: nat) -> nat {
    250 * doubling(attempt)
}

/// Doubling grows with its exponent.
proof fn lemma_doubling_monotonic(n: nat, m: nat)
    requires
        n <= m,
    ensures
        doubling(n) <= doubling(m),
    decreases m,
{
    if n < m {
        lemma_doubling_monotonic(n, (m - 1) as nat);
    }
}

/// Whether a failed status is worth another attempt.
pub fn retryable(status: u16) -> (r: bool)
    ensures
        r == retryable_spec(status),
{
    status == 429 || status == 500 || status == 503
}

/// The pause before the next attempt, in milliseconds.
pub fn backoff_ms(attempt: usize) -> (r: u64)
    requires
        attempt < 8,
    ensures
        r == backoff_spec(attempt as nat),
{
    let mut d: u64 = 250;
    let mut i: usize = 0;
    while i < attempt
        invariant
            i <= attempt < 8,
            d == 250 * doubling(i as nat),
            doubling(i as nat) <= 128,
        decreases attempt - i,
    {
        assert(doubling((i + 1) as nat) == 2 * doubling(i as nat));
        proof {
            lemma_doubling_monotonic((i + 1) as nat, 7);
            reveal_with_fuel(doubling, 8);
        }
        d = d * 2;
        i = i + 1;
    }
    d
}

/// How one attempt ended.
pub enum Outcome {
    /// The server answered with this status and body.
    Reply { status: u16, body: String },
    /// No answer arrived; `transient` when the connection could not be made
    /// or timed out.
    SendFailed { transient: bool, message: String },
}

/// What to do after an attempt.
pub enum Step {
    /// Wait this long, then try again.
    Retry { delay_ms: u64 },
    /// The request is over with this result.
    Finished(Result<ChatResponse, AgentError>),
}

/// Whether a JSON value is a chat completion: its `choices` are an array of
/// objects with a well-formed `message`.
pub open spec fn completion_shape(j: Json) -> bool {
    member_value(j, "choices"@) matches Some(Json::Array(items)) && forall|i: int|
        0 <= i < items@.len() ==> choice_message(#[trigger] items@[i]) is Some
}

/// Whether `resp` holds the messages of the completion `j`, in order.
pub open spec fn response_matches(j: Json, resp: ChatResponse) -> bool {
    &&& member_value(j, "choices"@) matches Some(Json::Array(items))
    &&& resp.choices@.len() == items@.len()
    &&& forall|i: int|
        0 <= i < items@.len() ==> choice_message(#[trigger] items@[i]) == Some(
            resp.choices@[i].message@,
        )
}

/// Whether `e` is a JSON error with this message.
pub open spec fn is_json_error(e: AgentError, message: Seq<char>) -> bool {
    e matches AgentError::Json(m) && m@ == message
}

/// What a successful reply's body means: the completion it holds, a JSON
/// error with the parser's message, or a JSON error when it is not a
/// completion.
pub open spec fn reply_result(body: Seq<char>, r: Result<ChatResponse, AgentError>) -> bool {
    match json_parse(body) {
        Err(m) => r matches Err(e) && is_json_error(e, m),
        Ok(j) => if completion_shape(j) {
            r matches Ok(resp) && response_matches(j, resp)
        } else {
            r matches Err(e) && is_json_error(e, SHAPE_ERROR@)
        },
    }
}

/// Reads a successful reply's body.
pub fn parse_reply(body: &str) -> (r: Result<ChatResponse, AgentError>)
    ensures
        reply_result(body@, r),
{
    match parse_json(body) {
        Err(m) => Err(AgentError::Json(m)),
        Ok(j) => match ChatResponse::from_json(&j) {
            Some(resp) => Ok(resp),
            None => Err(AgentError::Json(owned(SHAPE_ERROR))),
        },
    }
}

/// Whether `r` is the failure of a reply with this status and body.
pub open spec fn is_api_failure(r: Step, status: u16, body: Seq<char>) -> bool {
    r matches Step::Finished(Err(AgentError::Api { status: s, body: b })) && s == status && b@ == body
}

/// Whether `r` is a transport failure with this message.
pub open spec fn is_http_failure(r: Step, message: Seq<char>) -> bool {
    r matches Step::Finished(Err(AgentError::Http(m))) && m@ == message
}

/// Whether `r` retries after the pause for `attempt`.
pub open spec fn is_retry(r: Step, attempt: nat) -> bool {
    r matches Step::Retry { delay_ms } && delay_ms == backoff_spec(attempt)
}

/// Whether `r` finishes with the meaning of a successful reply's body.
pub open spec fn is_parsed(r: Step, body: Seq<char>) -> bool {
    r matches Step::Finished(res) && reply_result(body, res)
}

/// The client's settings.
#[derive(Debug, Clone)]
pub struct DeepSeekClient {
    api_key: String,
    endpoint: String,
    retries: usize,
}

impl DeepSeekClient {
    /// The key sent as bearer token.
    pub closed spec fn api_key_view(&self) -> Seq<char> {
        self.api_key@
    }

    /// The URL requests are posted to.
    pub closed spec fn endpoint_view(&self) -> Seq<char> {
        self.endpoint@
    }

    /// How many times a failed request is tried again.
    pub closed spec fn retries_view(&self) -> nat {
        self.retries as nat
    }

    /// A client for the key and the base URL: requests go to the base URL
    /// without trailing slashes followed by `/chat/completions`, and a failed
    /// request is tried twice more.
    pub fn new(api_key: &str, base_url: &str) -> (c: DeepSeekClient)
        ensures
            c.api_key_view() == api_key@,
            c.endpoint_view() == endpoint_spec(base_url@),
            c.retries_view() == DEFAULT_RETRIES,
    {
        let b = chars_of(base_url);
        let mut end = b.len();
        assert(b@.take(end as int) =~= b@);
        while end > 0 && b[end - 1] == '/'
            invariant
                end <= b.len(),
                trim_end_slashes(b@.take(end as int)) == trim_end_slashes(b@),
            decreases end,
        {
            assert(b@.take(end - 1) =~= b@.take(end as int).drop_last());
            end = end - 1;
        }
        assert(trim_end_slashes(b@.take(end as int)) == b@.take(end as int));
        let mut endpoint = string_of(&crate::text::slice_vec(&b, 0, end));
        assert(b@.subrange(0, end as int) =~= b@.take(end as int));
        push_str(&mut endpoint, "/chat/completions");
        DeepSeekClient { api_key: owned(api_key), endpoint, retries: DEFAULT_RETRIES }
    }

    /// A client from the values of `DEEPSEEK_API_KEY` and
    /// `DEEPSEEK_BASE_URL`: the key must be set; the base URL defaults to the
    /// public endpoint.
    pub fn from_env(api_key: Option<String>, base_url: Option<String>) -> (r: Result<
        DeepSeekClient,
        AgentError,
    >)
        ensures
            match api_key {
                None => r matches Err(e) && crate::error::is_config_error(
                    e,
                    "DEEPSEEK_API_KEY is not set"@,
                ),
                Some(k) => r matches Ok(c) && c.api_key_view() == k@ && c.endpoint_view()
                    == endpoint_spec(
                    match opt_view(base_url) {
                        Some(b) => b,
                        None => DEFAULT_BASE_URL@,
                    },
                ) && c.retries_view() == DEFAULT_RETRIES,
            },
    {
        let key = match api_key {
            Some(k) => k,
            None => {
                return Err(AgentError::Config(owned("DEEPSEEK_API_KEY is not set")));
            },
        };
        let base = match base_url {
            Some(b) => b,
            None => owned(DEFAULT_BASE_URL),
        };
        Ok(DeepSeekClient::new(key.as_str(), base.as_str()))
    }

    /// The key sent as bearer token.
    pub fn api_key(&self) -> (r: &str)
        ensures
            r@ == self.api_key_view(),
    {
        self.api_key.as_str()
    }

    /// The URL requests are posted to.
    pub fn endpoint(&self) -> (r: &str)
        ensures
            r@ == self.endpoint_view(),
    {
        self.endpoint.as_str()
    }

    /// How many times a failed request is tried again.
    pub fn retries(&self) -> (r: usize)
        ensures
            r == self.retries_view(),
    {
        self.retries
    }

    /// What to do after attempt `attempt` (counted from 0) ended with
    /// `outcome`. A success status finishes with the reply's meaning. A
    /// retryable status, or a connection failure or timeout, is tried again
    /// after the back-off while attempts remain. Anything else finishes with
    /// an API error (status and body) or a transport error.
    pub fn next_step(&self, attempt: usize, outcome: Outcome) -> (r: Step)
        requires
            attempt <= self.retries_view(),
            self.retries_view() < 8,
        ensures
            attempt == self.retries_view() ==> r is Finished,
            match outcome {
                Outcome::Reply { status, body } => if is_success_status(status) {
                    is_parsed(r, body@)
                } else if attempt < self.retries_view() && retryable_spec(status) {
                    is_retry(r, attempt as nat)
                } else {
                    is_api_failure(r, status, body@)
                },
                Outcome::SendFailed { transient, message } => if attempt < self.retries_view()
                    && transient {
                    is_retry(r, attempt as nat)
                } else {
                    is_http_failure(r, message@)
                },
            },
    {
        match outcome {
            Outcome::Reply { status, body } => {
                if 200 <= status && status <= 299 {
                    Step::Finished(parse_reply(body.as_str()))
                } else if attempt < self.retries && retryable(status) {
                    Step::Retry { delay_ms: backoff_ms(attempt) }
                } else {
                    Step::Finished(Err(AgentError::Api { status, body }))
                }
            },
            Outcome::SendFailed { transient, message } => {
                if attempt < self.retries && transient {
                    Step::Retry { delay_ms: backoff_ms(attempt) }
                } else {
                    Step::Finished(Err(AgentError::Http(message)))
                }
            },
        }
    }
}

} // verus!
