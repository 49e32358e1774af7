//! Preparing a batch of tool calls, deciding how it runs, and collecting one
//! result per call in the model's order.

use vstd::prelude::*;

use crate::json::{json_parse, parse_json, Json};
use crate::model::{is_failure, owned, ToolCall, ToolCallView, ToolOutput};
use crate::permission::PermissionMode;
use crate::text::chars_eq_str;
use crate::tools::{tool_effect, tool_named, tool_validation, PreparedCall, StandardTool, ToolEffect};

verus! {

/// What the registry says about a parsed call.
pub enum CallCheck {
    /// No tool has this name.
    Unknown,
    /// The tool refused the arguments, for this reason.
    Invalid(String),
    /// The tool accepts the arguments; running it has this effect.
    Valid(ToolEffect),
}

/// Checks a call against the standard tools: an unknown name, the tool's
/// reason for refusing the arguments, or the effect of running it.
pub fn check_standard(name: &str, args: &Json) -> (r: CallCheck)
    ensures
        match tool_named(name@) {
            None => r is Unknown,
            Some(t) => match tool_validation(t, *args) {
                Err(e) => r matches CallCheck::Invalid(m) && m@ == e,
                Ok(()) => r == CallCheck::Valid(tool_effect(t, *args)),
            },
        },
{
    match StandardTool::named(name) {
        None => CallCheck::Unknown,
        Some(t) => match t.validate(args) {
            Err(e) => CallCheck::Invalid(e),
            Ok(()) => CallCheck::Valid(t.effect(args)),
        },
    }
}

/// Whether `r` is a refusal with this error code and message.
pub open spec fn refused<T>(r: Result<T, ToolOutput>, code: Seq<char>, message: Seq<char>) -> bool {
    match r {
        Err(o) => is_failure(o, code, message),
        Ok(_) => false,
    }
}

/// The first checks of a call: it must be a function call, and its arguments
/// must be JSON. The refusals are `unsupported_tool_type` (with the call's
/// type) and `invalid_json` (with the parser's message).
pub fn parse_call(call: &ToolCall) -> (r: Result<Json, ToolOutput>)
    ensures
        call@.kind != "function"@ ==> refused(r, "unsupported_tool_type"@, call@.kind),
        call@.kind == "function"@ ==> match json_parse(call@.arguments) {
            Ok(v) => r == Ok::<Json, ToolOutput>(v),
            Err(m) => refused(r, "invalid_json"@, m),
        },
{
    if !chars_eq_str(&crate::text::chars_of(call.kind.as_str()), "function") {
        return Err(ToolOutput::failure("unsupported_tool_type", call.kind.as_str()));
    }
    match parse_json(call.function.arguments.as_str()) {
        Ok(v) => Ok(v),
        Err(m) => Err(ToolOutput::failure("invalid_json", m.as_str())),
    }
}

/// Whether `r` is the call at `index` made ready to run.
pub open spec fn prepared_as(
    r: Result<PreparedCall, ToolOutput>,
    index: usize,
    call: crate::model::ToolCallView,
    args: Json,
    effect: ToolEffect,
) -> bool {
    match r {
        Ok(p) => p.index == index && p.id@ == call.id && p.name@ == call.name && p.arguments == args
            && p.effect == effect,
        Err(_) => false,
    }
}

/// The last checks of a parsed call: an unknown tool gives `unknown_tool`
/// (with the name), refused arguments give `invalid_arguments` (with the
/// reason); otherwise the call is ready to run at position `index`.
pub fn prepare_call(index: usize, call: &ToolCall, args: Json, check: CallCheck) -> (r: Result<
    PreparedCall,
    ToolOutput,
>)
    ensures
        match check {
            CallCheck::Unknown => refused(r, "unknown_tool"@, call@.name),
            CallCheck::Invalid(m) => refused(r, "invalid_arguments"@, m@),
            CallCheck::Valid(effect) => prepared_as(r, index, call@, args, effect),
        },
{
    match check {
        CallCheck::Unknown => Err(ToolOutput::failure("unknown_tool", call.function.name.as_str())),
        CallCheck::Invalid(m) => Err(ToolOutput::failure("invalid_arguments", m.as_str())),
        CallCheck::Valid(effect) => Ok(
            PreparedCall {
                index,
                id: call.id.clone(),
                name: call.function.name.clone(),
                arguments: args,
                effect,
            },
        ),
    }
}

/// Why a call is refused before it runs, as an error code and a message;
/// `None` for a call that is ready to run. The checks come in order: the
/// call must be a function call, its arguments must be JSON, its tool must
/// exist, and the tool must accept the arguments.
pub open spec fn call_refusal(c: ToolCallView) -> Option<(Seq<char>, Seq<char>)> {
    if c.kind != "function"@ {
        Some(("unsupported_tool_type"@, c.kind))
    } else {
        match json_parse(c.arguments) {
            Err(m) => Some(("invalid_json"@, m)),
            Ok(v) => match tool_named(c.name) {
                None => Some(("unknown_tool"@, c.name)),
                Some(t) => match tool_validation(t, v) {
                    Err(e) => Some(("invalid_arguments"@, e)),
                    Ok(()) => None,
                },
            },
        }
    }
}

/// Whether a slot holds what a call's refusal says: the failure for a
/// refused call, nothing yet for a call that will run.
pub open spec fn refusal_recorded(c: ToolCallView, slot: Option<ToolOutput>) -> bool {
    match call_refusal(c) {
        Some((code, message)) => slot matches Some(o) && is_failure(o, code, message),
        None => slot is None,
    }
}

/// Whether `p` is call `p.index` of `calls`, ready to run: it passed every
/// check, and it carries the call's id, name, parsed arguments and effect.
pub open spec fn prepared_for(calls: Seq<ToolCall>, p: PreparedCall) -> bool {
    &&& 0 <= p.index < calls.len()
    &&& call_refusal(calls[p.index as int]@) is None
    &&& p.id@ == calls[p.index as int]@.id
    &&& p.name@ == calls[p.index as int]@.name
    &&& json_parse(calls[p.index as int]@.arguments) == Ok::<Json, Seq<char>>(p.arguments)
    &&& tool_named(p.name@) matches Some(t) && p.effect == tool_effect(t, p.arguments)
}

/// Whether `prepared` lists calls of `calls` ready to run, in the model's
/// order, and every call ready to run among the first `n`.
pub open spec fn prepared_exactly(calls: Seq<ToolCall>, prepared: Seq<PreparedCall>, n: int) -> bool {
    &&& forall|j: int| 0 <= j < prepared.len() ==> prepared_for(calls, #[trigger] prepared[j])
    &&& forall|j: int| 0 <= j < prepared.len() ==> (#[trigger] prepared[j]).index < n
    &&& forall|j1: int, j2: int|
        0 <= j1 < j2 < prepared.len() ==> (#[trigger] prepared[j1]).index < (#[trigger] prepared[j2]).index
    &&& forall|k: int|
        0 <= k < n && call_refusal((#[trigger] calls[k])@) is None ==> exists|j: int|
            0 <= j < prepared.len() && prepared[j].index == k
}

/// Checks every call of a batch in the model's order. A refused call gets
/// its failure in its slot; the others are returned ready to run, in order,
/// with their slots still empty.
pub fn prepare_batch(calls: &[ToolCall]) -> (r: (BatchSlots, Vec<PreparedCall>))
    ensures
        r.0.contents().len() == calls@.len(),
        forall|i: int| 0 <= i < calls@.len() ==> refusal_recorded(calls@[i]@, #[trigger] r.0.contents()[i]),
        prepared_exactly(calls@, r.1@, calls@.len() as int),
{
    let mut slots = BatchSlots::new(calls.len());
    let mut prepared: Vec<PreparedCall> = Vec::new();
    let mut i: usize = 0;
    while i < calls.len()
        invariant
            i <= calls.len(),
            slots.contents().len() == calls@.len(),
            forall|k: int| i <= k < calls@.len() ==> (#[trigger] slots.contents()[k]) is None,
            forall|k: int| 0 <= k < i ==> refusal_recorded(calls@[k]@, #[trigger] slots.contents()[k]),
            prepared_exactly(calls@, prepared@, i as int),
        decreases calls.len() - i,
    {
        let call = &calls[i];
        let ghost before = slots.contents();
        match parse_call(call) {
            Err(o) => {
                slots.fill(i, o);
            },
            Ok(args) => {
                let ghost parsed = args;
                let check = check_standard(call.function.name.as_str(), &args);
                match prepare_call(i, call, args, check) {
                    Ok(p) => {
                        let ghost old_prepared = prepared@;
                        prepared.push(p);
                        assert(prepared@[prepared@.len() - 1].index == i);
                        assert forall|k: int|
                            0 <= k < i + 1 && call_refusal((#[trigger] calls@[k])@) is None implies exists|j: int|
                                0 <= j < prepared@.len() && prepared@[j].index == k by {
                            if k < i {
                                let j = choose|j: int| 0 <= j < old_prepared.len() && old_prepared[j].index == k;
                                assert(prepared@[j] == old_prepared[j]);
                            } else {
                                assert(prepared@[prepared@.len() - 1].index == k);
                            }
                        }
                    },
                    Err(o) => {
                        slots.fill(i, o);
                    },
                }
            },
        }
        assert forall|k: int| 0 <= k < i + 1 implies refusal_recorded(calls@[k]@, #[trigger] slots.contents()[k]) by {
            if k < i {
                assert(slots.contents()[k] == before[k]);
            }
        }
        i = i + 1;
    }
    (slots, prepared)
}

/// Whether `after` answers every prepared call with `user_denied` and leaves
/// the other slots of `before` as they were.
pub open spec fn denied_from(
    prepared: Seq<PreparedCall>,
    before: Seq<Option<ToolOutput>>,
    after: Seq<Option<ToolOutput>>,
) -> bool {
    &&& after.len() == before.len()
    &&& forall|j: int|
        0 <= j < prepared.len() ==> (after[(#[trigger] prepared[j]).index as int] matches Some(o)
            && is_failure(o, "user_denied"@, "the user declined this tool batch"@))
    &&& forall|i: int|
        0 <= i < before.len() && (forall|j: int|
            0 <= j < prepared.len() ==> (#[trigger] prepared[j]).index != i) ==> after[i] == before[i]
}

/// A declined batch still answers every call: a call that could not run
/// keeps its refusal, and every other call is answered `user_denied`; none is
/// left without a result.
pub proof fn law_declined_batch_answers_every_call(
    calls: Seq<ToolCall>,
    prepared: Seq<PreparedCall>,
    before: Seq<Option<ToolOutput>>,
    after: Seq<Option<ToolOutput>>,
)
    requires
        before.len() == calls.len(),
        forall|i: int| 0 <= i < calls.len() ==> refusal_recorded(calls[i]@, #[trigger] before[i]),
        prepared_exactly(calls, prepared, calls.len() as int),
        denied_from(prepared, before, after),
    ensures
        forall|i: int|
            0 <= i < calls.len() ==> match call_refusal((#[trigger] calls[i])@) {
                Some((code, message)) => after[i] matches Some(o) && is_failure(o, code, message),
                None => after[i] matches Some(o) && is_failure(
                    o,
                    "user_denied"@,
                    "the user declined this tool batch"@,
                ),
            },
{
    assert forall|i: int| 0 <= i < calls.len() implies match call_refusal((#[trigger] calls[i])@) {
        Some((code, message)) => after[i] matches Some(o) && is_failure(o, code, message),
        None => after[i] matches Some(o) && is_failure(
            o,
            "user_denied"@,
            "the user declined this tool batch"@,
        ),
    } by {
        if call_refusal(calls[i]@) is None {
            let j = choose|j: int| 0 <= j < prepared.len() && prepared[j].index == i;
            assert(prepared_for(calls, prepared[j]));
        } else {
            assert forall|j: int| 0 <= j < prepared.len() implies (#[trigger] prepared[j]).index != i by {
                assert(prepared_for(calls, prepared[j]));
            }
            assert(refusal_recorded(calls[i]@, before[i]));
        }
    }
}

/// Whether `after` holds a result in the slot of every prepared call and
/// leaves the other slots of `before` as they were: what filling each
/// prepared call's slot with its output gives.
pub open spec fn executed_from(
    prepared: Seq<PreparedCall>,
    before: Seq<Option<ToolOutput>>,
    after: Seq<Option<ToolOutput>>,
) -> bool {
    &&& after.len() == before.len()
    &&& forall|j: int|
        0 <= j < prepared.len() ==> after[(#[trigger] prepared[j]).index as int] is Some
    &&& forall|i: int|
        0 <= i < before.len() && (forall|j: int|
            0 <= j < prepared.len() ==> (#[trigger] prepared[j]).index != i) ==> after[i] == before[i]
}

/// An executed batch answers every call: a call that could not run keeps
/// its refusal, and every prepared call has the result it was given; no slot
/// is left empty.
pub proof fn law_executed_batch_answers_every_call(
    calls: Seq<ToolCall>,
    prepared: Seq<PreparedCall>,
    before: Seq<Option<ToolOutput>>,
    after: Seq<Option<ToolOutput>>,
)
    requires
        before.len() == calls.len(),
        forall|i: int| 0 <= i < calls.len() ==> refusal_recorded(calls[i]@, #[trigger] before[i]),
        prepared_exactly(calls, prepared, calls.len() as int),
        executed_from(prepared, before, after),
    ensures
        forall|i: int| 0 <= i < calls.len() ==> (#[trigger] after[i]) is Some,
        forall|i: int|
            0 <= i < calls.len() ==> match call_refusal((#[trigger] calls[i])@) {
                Some((code, message)) => after[i] matches Some(o) && is_failure(o, code, message),
                None => after[i] is Some,
            },
{
    assert forall|i: int| 0 <= i < calls.len() implies (#[trigger] after[i]) is Some && match call_refusal(
        calls[i]@,
    ) {
        Some((code, message)) => after[i] matches Some(o) && is_failure(o, code, message),
        None => after[i] is Some,
    } by {
        if call_refusal(calls[i]@) is None {
            let j = choose|j: int| 0 <= j < prepared.len() && prepared[j].index == i;
            assert(after[prepared[j].index as int] is Some);
        } else {
            assert forall|j: int| 0 <= j < prepared.len() implies (#[trigger] prepared[j]).index != i by {
                assert(prepared_for(calls, prepared[j]));
            }
            assert(refusal_recorded(calls[i]@, before[i]));
        }
    }
}

/// How a validated batch runs.
#[derive(Debug, Clone, Copy, PartialEq, Eq, Structural)]
pub enum BatchMode {
    /// The user declined: nothing runs and every prepared call is answered
    /// with `user_denied`.
    Denied,
    /// Every call only observes: all run at once.
    Concurrent,
    /// Some call changes something: the calls run one after another in the
    /// model's order.
    Sequential,
}

/// Whether the user must approve a batch before it runs.
pub fn needs_approval(permission: PermissionMode) -> (r: bool)
    ensures
        r == (permission == PermissionMode::RequireApproval),
{
    permission == PermissionMode::RequireApproval
}

/// Whether every prepared call only observes.
pub open spec fn all_read_only(prepared: Seq<PreparedCall>) -> bool {
    forall|i: int| 0 <= i < prepared.len() ==> (#[trigger] prepared[i]).effect == ToolEffect::ReadOnly
}

/// How a batch runs: not at all when it was not approved; at once when every
/// call only observes; otherwise one after another.
pub fn batch_mode(prepared: &[PreparedCall], approved: bool) -> (r: BatchMode)
    ensures
        !approved ==> r == BatchMode::Denied,
        approved && all_read_only(prepared@) ==> r == BatchMode::Concurrent,
        approved && !all_read_only(prepared@) ==> r == BatchMode::Sequential,
{
    if !approved {
        return BatchMode::Denied;
    }
    let mut i: usize = 0;
    while i < prepared.len()
        invariant
            approved,
            i <= prepared.len(),
            forall|k: int| 0 <= k < i ==> (#[trigger] prepared@[k]).effect == ToolEffect::ReadOnly,
        decreases prepared.len() - i,
    {
        if prepared[i].effect != ToolEffect::ReadOnly {
            return BatchMode::Sequential;
        }
        i = i + 1;
    }
    BatchMode::Concurrent
}

/// The answer to a call of a declined batch.
pub fn denied_output() -> (r: ToolOutput)
    ensures
        is_failure(r, "user_denied"@, "the user declined this tool batch"@),
{
    ToolOutput::failure("user_denied", "the user declined this tool batch")
}

/// The result slots of a batch, one per call in the model's order.
pub struct BatchSlots {
    slots: Vec<Option<ToolOutput>>,
}

/// What a slot holds when a batch is finished: its output, or `runtime_error`
/// when none arrived.
pub open spec fn slot_result(slot: Option<ToolOutput>, out: ToolOutput) -> bool {
    match slot {
        Some(o) => out == o,
        None => is_failure(out, "runtime_error"@, "missing tool result"@),
    }
}

impl BatchSlots {
    /// The slots' contents.
    pub closed spec fn contents(&self) -> Seq<Option<ToolOutput>> {
        self.slots@
    }

    /// `n` empty slots.
    pub fn new(n: usize) -> (b: BatchSlots)
        ensures
            b.contents().len() == n,
            forall|i: int| 0 <= i < n ==> (#[trigger] b.contents()[i]) is None,
    {
        let mut slots: Vec<Option<ToolOutput>> = Vec::new();
        let mut i: usize = 0;
        while i < n
            invariant
                i <= n,
                slots@.len() == i,
                forall|k: int| 0 <= k < i ==> (#[trigger] slots@[k]) is None,
            decreases n - i,
        {
            slots.push(None);
            i = i + 1;
        }
        BatchSlots { slots }
    }

    /// The number of slots.
    pub fn len(&self) -> (n: usize)
        ensures
            n == self.contents().len(),
    {
        self.slots.len()
    }

    /// Puts the output of call `i` in its slot.
    pub fn fill(&mut self, i: usize, output: ToolOutput)
        requires
            i < old(self).contents().len(),
        ensures
            final(self).contents() == old(self).contents().update(i as int, Some(output)),
    {
        self.slots.set(i, Some(output));
    }

    /// Answers every prepared call of a declined batch with `user_denied`;
    /// the other slots are left as they were.
    pub fn deny(&mut self, prepared: &[PreparedCall])
        requires
            forall|j: int| 0 <= j < prepared@.len() ==> (#[trigger] prepared@[j]).index < old(self).contents().len(),
        ensures
            denied_from(prepared@, old(self).contents(), final(self).contents()),
    {
        let mut k: usize = 0;
        while k < prepared.len()
            invariant
                k <= prepared.len(),
                self.contents().len() == old(self).contents().len(),
                forall|j: int| 0 <= j < prepared@.len() ==> (#[trigger] prepared@[j]).index < old(self).contents().len(),
                forall|j: int|
                    0 <= j < k ==> (self.contents()[(#[trigger] prepared@[j]).index as int] matches Some(
                        o,
                    ) && is_failure(o, "user_denied"@, "the user declined this tool batch"@)),
                forall|i: int|
                    0 <= i < old(self).contents().len() && (forall|j: int|
                        0 <= j < k ==> (#[trigger] prepared@[j]).index != i) ==> self.contents()[i]
                        == old(self).contents()[i],
            decreases prepared.len() - k,
        {
            let ghost before = self.contents();
            self.fill(prepared[k].index, denied_output());
            assert forall|j: int|
                0 <= j < k + 1 implies (self.contents()[(#[trigger] prepared@[j]).index as int] matches Some(
                o,
            ) && is_failure(o, "user_denied"@, "the user declined this tool batch"@)) by {
                if j < k && prepared@[j].index != prepared@[k as int].index {
                    assert(self.contents()[prepared@[j].index as int] == before[prepared@[j].index as int]);
                }
            }
            assert forall|i: int|
                0 <= i < old(self).contents().len() && (forall|j: int|
                    0 <= j < k + 1 ==> (#[trigger] prepared@[j]).index != i) implies self.contents()[i]
                == old(self).contents()[i] by {
                assert(prepared@[k as int].index != i);
                assert(forall|j: int| 0 <= j < k ==> (#[trigger] prepared@[j]).index != i);
            }
            k = k + 1;
        }
    }

    /// Puts each prepared call's output in its slot: `outputs[j]` belongs to
    /// `prepared[j]`. The other slots are left as they were.
    pub fn record(&mut self, prepared: &[PreparedCall], outputs: Vec<ToolOutput>)
        requires
            outputs@.len() == prepared@.len(),
            forall|j: int| 0 <= j < prepared@.len() ==> (#[trigger] prepared@[j]).index < old(self).contents().len(),
            forall|j1: int, j2: int|
                0 <= j1 < j2 < prepared@.len() ==> (#[trigger] prepared@[j1]).index < (#[trigger] prepared@[j2]).index,
        ensures
            executed_from(prepared@, old(self).contents(), final(self).contents()),
            forall|j: int|
                0 <= j < prepared@.len() ==> final(self).contents()[(#[trigger] prepared@[j]).index as int]
                    == Some(outputs@[j]),
    {
        let ghost all = outputs@;
        let mut rest = outputs;
        let mut k: usize = 0;
        while k < prepared.len()
            invariant
                k <= prepared.len(),
                all.len() == prepared@.len(),
                rest@ == all.skip(k as int),
                self.contents().len() == old(self).contents().len(),
                forall|j: int| 0 <= j < prepared@.len() ==> (#[trigger] prepared@[j]).index < old(self).contents().len(),
                forall|j1: int, j2: int|
                    0 <= j1 < j2 < prepared@.len() ==> (#[trigger] prepared@[j1]).index < (#[trigger] prepared@[j2]).index,
                forall|j: int|
                    0 <= j < k ==> self.contents()[(#[trigger] prepared@[j]).index as int] == Some(all[j]),
                forall|i: int|
                    0 <= i < old(self).contents().len() && (forall|j: int|
                        0 <= j < k ==> (#[trigger] prepared@[j]).index != i) ==> self.contents()[i]
                        == old(self).contents()[i],
            decreases prepared.len() - k,
        {
            let ghost before = self.contents();
            let output = rest.remove(0);
            assert(output == all[k as int]);
            self.fill(prepared[k].index, output);
            assert forall|j: int| 0 <= j < k + 1 implies self.contents()[(#[trigger] prepared@[j]).index as int]
                == Some(all[j]) by {
                if j < k {
                    assert(prepared@[j].index < prepared@[k as int].index);
                    assert(self.contents()[prepared@[j].index as int] == before[prepared@[j].index as int]);
                }
            }
            assert forall|i: int|
                0 <= i < old(self).contents().len() && (forall|j: int|
                    0 <= j < k + 1 ==> (#[trigger] prepared@[j]).index != i) implies self.contents()[i]
                == old(self).contents()[i] by {
                assert(prepared@[k as int].index != i);
                assert(forall|j: int| 0 <= j < k ==> (#[trigger] prepared@[j]).index != i);
            }
            assert(rest@ =~= all.skip(k + 1));
            k = k + 1;
        }
    }

    /// One result per call, in the model's order.
    pub fn finish(self) -> (r: Vec<ToolOutput>)
        ensures
            r@.len() == self.contents().len(),
            forall|i: int| 0 <= i < r@.len() ==> slot_result(self.contents()[i], #[trigger] r@[i]),
    {
        let ghost initial = self.slots@;
        let mut slots = self.slots;
        let mut out: Vec<ToolOutput> = Vec::new();
        while slots.len() > 0
            invariant
                out@.len() + slots@.len() == initial.len(),
                slots@ == initial.skip(out@.len() as int),
                forall|i: int| 0 <= i < out@.len() ==> slot_result(initial[i], #[trigger] out@[i]),
            decreases slots.len(),
        {
            let ghost k = out@.len() as int;
            let slot = slots.remove(0);
            assert(slot == initial[k]);
            let o = match slot {
                Some(o) => o,
                None => ToolOutput::failure("runtime_error", "missing tool result"),
            };
            out.push(o);
            assert(slots@ =~= initial.skip(out@.len() as int));
        }
        out
    }
}

} // verus!
