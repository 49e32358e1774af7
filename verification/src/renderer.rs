//! What the console shows while the agent works: one line per model call
//! and per tool call, and tool payloads when detailed tracing is on or a
//! call failed.

use vstd::prelude::*;

use crate::json::{get_member, json_text, member_value, to_json_string, Json};
use crate::model::owned;
use crate::text::{chars_of, decimal, decimal_chars, push_chars, push_str, slice_vec};
use crate::tools::PreparedCall;

verus! {

/// The console view of agent progress; `verbose` is the detailed-trace
/// switch.
#[derive(Debug)]
pub struct ConsoleRenderer {
    verbose: bool,
}

/// An observer that shows nothing.
pub struct NoopObserver;

impl ConsoleRenderer {
    /// A renderer with the trace switch set as given.
    pub fn new(verbose: bool) -> (r: ConsoleRenderer)
        ensures
            r.verbose_view() == verbose,
    {
        ConsoleRenderer { verbose }
    }

    /// Whether detailed tracing is on.
    pub closed spec fn verbose_view(&self) -> bool {
        self.verbose
    }

    /// Turns detailed tracing on or off.
    pub fn set_verbose(&mut self, verbose: bool)
        ensures
            final(self).verbose_view() == verbose,
    {
        self.verbose = verbose;
    }

    /// Whether detailed tracing is on.
    pub fn verbose(&self) -> (r: bool)
        ensures
            r == self.verbose_view(),
    {
        self.verbose
    }

    /// Whether a finished tool call's output is shown: always with detailed
    /// tracing, otherwise only when the call failed.
    pub fn shows_output(&self, ok: bool) -> (r: bool)
        ensures
            r == (self.verbose_view() || !ok),
    {
        self.verbose || !ok
    }
}

/// The argument keys whose value summarizes a call, in order of preference.
pub open spec fn hint_keys() -> Seq<Seq<char>> {
    seq!["path"@, "command"@, "expression"@, "query"@, "action"@]
}

/// How an argument value reads in a hint: a string's content, any other
/// value's JSON text.
pub open spec fn hint_value(v: Json) -> Seq<char> {
    match v {
        Json::Str(s) => s@,
        _ => json_text(v),
    }
}

/// At most the first 100 characters of `t`.
pub open spec fn first_100(t: Seq<char>) -> Seq<char> {
    if t.len() <= 100 {
        t
    } else {
        t.take(100)
    }
}

/// The hint from the first of the keys `hint_keys()[i..]` that the arguments
/// hold: two spaces and the first 100 characters of its value; empty when
/// none is present.
pub open spec fn hint_from(args: Json, i: int) -> Seq<char>
    decreases 5 - i,
{
    if i < 0 || i >= 5 {
        Seq::empty()
    } else {
        match member_value(args, hint_keys()[i]) {
            Some(v) => "  "@ + first_100(hint_value(v)),
            None => hint_from(args, i + 1),
        }
    }
}

/// The key `hint_keys()[i]` as a string slice.
fn hint_key(i: usize) -> (r: &'static str)
    requires
        i < 5,
    ensures
        r@ == hint_keys()[i as int],
{
    if i == 0 {
        "path"
    } else if i == 1 {
        "command"
    } else if i == 2 {
        "expression"
    } else if i == 3 {
        "query"
    } else {
        "action"
    }
}

/// A short summary of a call's arguments, shown after the tool's name.
pub fn call_hint(call: &PreparedCall) -> (r: String)
    ensures
        r@ == hint_from(call.arguments, 0),
{
    let mut i: usize = 0;
    while i < 5
        invariant
            i <= 5,
            hint_from(call.arguments, i as int) == hint_from(call.arguments, 0),
        decreases 5 - i,
    {
        let key = hint_key(i);
        match get_member(&call.arguments, key) {
            Some(v) => {
                let text = match v {
                    Json::Str(s) => chars_of(s.as_str()),
                    _ => chars_of(to_json_string(v).as_str()),
                };
                let n = if text.len() <= 100 {
                    text.len()
                } else {
                    100
                };
                let mut out = owned("  ");
                let concise = slice_vec(&text, 0, n);
                assert(concise@ =~= first_100(hint_value(*v)));
                push_chars(&mut out, &concise);
                return out;
            },
            None => {},
        }
        i = i + 1;
    }
    String::new()
}

/// The line shown when a tool call starts: an arrow, the tool's name and the
/// hint.
pub fn started_line(call: &PreparedCall) -> (r: String)
    ensures
        r@ == "\n→ "@ + call.name@ + hint_from(call.arguments, 0),
{
    let mut out = owned("\n→ ");
    push_str(&mut out, call.name.as_str());
    let hint = call_hint(call);
    push_str(&mut out, hint.as_str());
    out
}

/// The line shown when a tool call finished: a check mark or a cross, the
/// duration, and whether the result came from the cache.
pub open spec fn finished_spec(ok: bool, millis: u64, cached: bool) -> Seq<char> {
    (if ok {
        "✓"@
    } else {
        "✗"@
    }) + " completed in "@ + decimal(millis as nat) + " ms"@ + (if cached {
        " (cached)"@
    } else {
        ""@
    })
}

/// The line shown when a tool call finished.
pub fn finished_line(ok: bool, millis: u64, cached: bool) -> (r: String)
    ensures
        r@ == finished_spec(ok, millis, cached),
{
    let mut out = if ok {
        owned("✓")
    } else {
        owned("✗")
    };
    push_str(&mut out, " completed in ");
    push_chars(&mut out, &decimal_chars(millis));
    push_str(&mut out, " ms");
    if cached {
        push_str(&mut out, " (cached)");
    }
    proof {
        if !cached {
            assert(""@ =~= Seq::<char>::empty()) by {
                reveal_strlit("");
            }
        }
    }
    out
}

/// The line shown under a model call when detailed tracing is on.
pub fn model_line(millis: u64) -> (r: String)
    ensures
        r@ == "  model completed in "@ + decimal(millis as nat) + " ms"@,
{
    let mut out = owned("  model completed in ");
    push_chars(&mut out, &decimal_chars(millis));
    push_str(&mut out, " ms");
    out
}

} // verus!
