//! `shell`: runs a command on the host; here, its argument rules and how its
//! output is reported.

use vstd::prelude::*;

use crate::json::{field_text, json_quoted, json_text, member_texts, object_text, Json, JsonNumber, ObjectBuilder};
use crate::model::{bool_text, is_failure, is_success_text, owned, ToolOutput};
use crate::text::{chars_of, decimal, decimal_chars, push_chars, push_str, signed_decimal, trim, trim_spec};
use crate::tools::args::{
    args_problem, field_value, problem_message, read_fields, FieldSpec, FieldType, FieldValue,
};
use crate::tools::read_file::{lossy_text, utf8_lossy};
use crate::tools::ToolEffect;

verus! {

/// The description offered to the model.
pub const DESCRIPTION: &'static str =
    "Execute a shell command with full host permissions in the workspace. This is not sandboxed.";

/// The most bytes of each output stream that are reported.
pub const OUTPUT_LIMIT: usize = 65536;

/// Runs shell commands.
pub struct ShellTool;

/// The arguments of a command.
#[derive(Debug, Clone, PartialEq)]
pub struct ShellArgs {
    pub command: String,
    pub timeout_ms: u64,
}

/// The declared fields: `command` (required) and `timeout_ms` (120000 when
/// absent).
pub open spec fn shell_fields() -> Seq<FieldSpec> {
    seq![
        FieldSpec { name: "command", ty: FieldType::Text, required: true },
        FieldSpec { name: "timeout_ms", ty: FieldType::Unsigned, required: false },
    ]
}

fn fields() -> (r: Vec<FieldSpec>)
    ensures
        r@ == shell_fields(),
{
    let mut v = Vec::new();
    v.push(FieldSpec { name: "command", ty: FieldType::Text, required: true });
    v.push(FieldSpec { name: "timeout_ms", ty: FieldType::Unsigned, required: false });
    assert(v@ =~= shell_fields());
    v
}

/// The timeout that the arguments ask for (120000 ms when absent).
pub open spec fn shell_timeout(args: Json) -> nat {
    match field_value(args, shell_fields(), 1) {
        Some(FieldValue::Unsigned(n)) => n as nat,
        _ => 120000,
    }
}

/// Whether the arguments are accepted: they must read, the command must not
/// be blank and the timeout must be between 100 and 600000 ms.
pub open spec fn shell_validation(args: Json) -> Result<(), Seq<char>> {
    match args_problem(args, shell_fields()) {
        Some(p) => Err(problem_message(p, shell_fields())),
        None => {
            let blank = match field_value(args, shell_fields(), 0) {
                Some(FieldValue::Text(c)) => trim_spec(c@).len() == 0,
                _ => true,
            };
            if blank {
                Err("command cannot be empty"@)
            } else if !(100 <= shell_timeout(args) <= 600000) {
                Err("timeout_ms must be between 100 and 600000"@)
            } else {
                Ok(())
            }
        },
    }
}

/// A command that is not blank is accepted with the default timeout of
/// 120000 ms, and with a timeout that the call sets exactly when it is from
/// 100 to 600000 ms: arguments `{"command": command}` or
/// `{"command": command, "timeout_ms": t}`.
pub proof fn law_shell_accepts_a_nonblank_command(args: Json, command: Seq<char>, timeout: Option<u64>)
    requires
        args is Object,
        args->Object_0@.len() >= 1,
        args->Object_0@[0].key@ == "command"@,
        args->Object_0@[0].value is Str,
        args->Object_0@[0].value->Str_0@ == command,
        timeout is None ==> args->Object_0@.len() == 1,
        timeout is Some ==> args->Object_0@.len() == 2 && args->Object_0@[1].key@ == "timeout_ms"@
            && args->Object_0@[1].value == Json::Number(JsonNumber::PosInt(timeout->0)),
        trim_spec(command).len() > 0,
    ensures
        shell_validation(args) is Ok <==> (timeout is None || 100 <= timeout->0 <= 600000),
        shell_timeout(args) == match timeout {
            Some(t) => t as nat,
            None => 120000,
        },
{
    reveal_strlit("command");
    reveal_strlit("timeout_ms");
    let fs = shell_fields();
    let ms = args->Object_0@;
    assert(fs[0].name@ == "command"@);
    assert(fs[1].name@ == "timeout_ms"@);
    assert("command"@ != "timeout_ms"@) by {
        assert("command"@[0] != "timeout_ms"@[0]);
    }
    assert(crate::tools::args::spec_index(fs, "command"@, 0) == 0);
    assert(crate::tools::args::spec_index(fs, "timeout_ms"@, 1) == 1);
    assert(crate::tools::args::spec_index(fs, "timeout_ms"@, 0) == 1);
    assert(crate::json::key_index(ms, "command"@, 0) == 0);
    match timeout {
        None => {
            assert(crate::tools::args::member_problem(ms, fs, 1) is None);
            assert(crate::json::key_index(ms, "timeout_ms"@, 1) == -1);
            assert(crate::json::key_index(ms, "timeout_ms"@, 0) == -1);
        },
        Some(t) => {
            assert(crate::tools::args::member_problem(ms, fs, 2) is None);
            assert(crate::tools::args::member_problem(ms, fs, 1) is None);
            assert(crate::json::key_index(ms, "timeout_ms"@, 1) == 1);
            assert(crate::json::key_index(ms, "timeout_ms"@, 0) == 1);
        },
    }
    assert(crate::tools::args::member_problem(ms, fs, 0) is None);
    assert(crate::tools::args::missing_problem(ms, fs, 2) is None);
    assert(crate::tools::args::missing_problem(ms, fs, 1) is None);
    assert(crate::tools::args::missing_problem(ms, fs, 0) is None);
    assert(args_problem(args, fs) is None);
}

/// The reported form of one output stream: at most the first 65536 bytes,
/// decoded lossily, and whether bytes were dropped.
pub open spec fn bounded_spec(bytes: Seq<u8>) -> (Seq<char>, bool) {
    if bytes.len() > OUTPUT_LIMIT {
        (utf8_lossy(bytes.take(OUTPUT_LIMIT as int)), true)
    } else {
        (utf8_lossy(bytes), false)
    }
}

/// The text of an optional exit code.
pub open spec fn exit_code_text(code: Option<i32>) -> Seq<char> {
    match code {
        Some(c) => signed_decimal(c as int),
        None => "null"@,
    }
}

/// The text of the data reported for a finished command.
pub open spec fn shell_data_text(code: Option<i32>, success: bool, stdout: Seq<u8>, stderr: Seq<u8>) -> Seq<char> {
    object_text(
        seq![
            field_text("exit_code"@, exit_code_text(code)),
            field_text("stderr"@, json_quoted(bounded_spec(stderr).0)),
            field_text("stdout"@, json_quoted(bounded_spec(stdout).0)),
            field_text("success"@, bool_text(success)),
            field_text("truncated"@, bool_text(bounded_spec(stdout).1 || bounded_spec(stderr).1)),
        ],
    )
}

/// The reported form of one output stream.
pub fn bounded_text(bytes: &[u8]) -> (r: (String, bool))
    ensures
        (r.0@, r.1) == bounded_spec(bytes@),
{
    if bytes.len() > OUTPUT_LIMIT {
        let (head, _) = bytes.split_at(OUTPUT_LIMIT);
        assert(head@ =~= bytes@.take(OUTPUT_LIMIT as int));
        (lossy_text(head), true)
    } else {
        (lossy_text(bytes), false)
    }
}

/// An integer as a JSON number (non-negative ones as serde_json keeps them).
fn int_json(v: i64) -> (r: Json)
    ensures
        json_text(r) == signed_decimal(v as int),
{
    if v >= 0 {
        Json::Number(JsonNumber::PosInt(v as u64))
    } else {
        Json::Number(JsonNumber::NegInt(v))
    }
}

impl ShellTool {
    /// Reads the arguments (without the range checks).
    pub fn parse(&self, args: &Json) -> (r: Result<ShellArgs, String>)
        ensures
            match r {
                Ok(a) => args_problem(*args, shell_fields()) is None && field_value(
                    *args,
                    shell_fields(),
                    0,
                ) == Some(FieldValue::Text(a.command)) && a.timeout_ms as nat == shell_timeout(
                    *args,
                ),
                Err(e) => args_problem(*args, shell_fields()) matches Some(p) && e@
                    == problem_message(p, shell_fields()),
            },
    {
        let specs = fields();
        let values = match read_fields(args, &specs) {
            Ok(v) => v,
            Err(e) => {
                return Err(e);
            },
        };
        proof {
            crate::tools::args::lemma_required_present(*args, shell_fields(), 0);
        }
        assert(values@[0] == field_value(*args, shell_fields(), 0));
        assert(values@[1] == field_value(*args, shell_fields(), 1));
        let timeout_ms = match &values[1] {
            Some(FieldValue::Unsigned(n)) => *n,
            _ => 120000,
        };
        match &values[0] {
            Some(FieldValue::Text(command)) => Ok(ShellArgs { command: command.clone(), timeout_ms }),
            _ => Err(owned("missing field `command`")),
        }
    }

    /// Checks the arguments.
    pub fn validate(&self, args: &Json) -> (r: Result<(), String>)
        ensures
            match r {
                Ok(()) => shell_validation(*args) is Ok,
                Err(e) => shell_validation(*args) == Err::<(), Seq<char>>(e@),
            },
    {
        let a = match self.parse(args) {
            Ok(a) => a,
            Err(e) => {
                return Err(e);
            },
        };
        let t = trim(&chars_of(a.command.as_str()));
        if t.len() == 0 {
            return Err(owned("command cannot be empty"));
        }
        if !(100 <= a.timeout_ms && a.timeout_ms <= 600000) {
            return Err(owned("timeout_ms must be between 100 and 600000"));
        }
        Ok(())
    }

    /// Commands may change anything.
    pub fn effect(&self, _args: &Json) -> (r: ToolEffect)
        ensures
            r == ToolEffect::Mutating,
    {
        ToolEffect::Mutating
    }

    /// The report of a finished command: exit code (`null` when killed by a
    /// signal), success, both streams bounded, and whether either was cut. A
    /// non-zero exit is still a successful observation.
    pub fn finished(&self, code: Option<i32>, success: bool, stdout: &[u8], stderr: &[u8]) -> (r: ToolOutput)
        ensures
            is_success_text(r, shell_data_text(code, success, stdout@, stderr@)),
    {
        let (out, out_cut) = bounded_text(stdout);
        let (err, err_cut) = bounded_text(stderr);
        let mut b = ObjectBuilder::new();
        match code {
            Some(c) => b.add("exit_code", int_json(c as i64)),
            None => b.add("exit_code", Json::Null),
        }
        b.add("stderr", Json::Str(err));
        b.add("stdout", Json::Str(out));
        b.add("success", Json::Bool(success));
        b.add("truncated", Json::Bool(out_cut || err_cut));
        let ghost be = b.entries();
        let d = b.finish();
        proof {
            reveal_strlit("null");
            assert(bounded_spec(stderr@).0 == err@);
            assert(bounded_spec(stdout@).0 == out@);
            assert(json_text(be[0].value) == exit_code_text(code));
            assert(member_texts(be) =~= seq![
                field_text("exit_code"@, exit_code_text(code)),
                field_text("stderr"@, json_quoted(bounded_spec(stderr@).0)),
                field_text("stdout"@, json_quoted(bounded_spec(stdout@).0)),
                field_text("success"@, bool_text(success)),
                field_text("truncated"@, bool_text(bounded_spec(stdout@).1 || bounded_spec(stderr@).1)),
            ]);
        }
        ToolOutput::success(d)
    }

    /// The report of a command that outlived its timeout.
    pub fn timed_out(&self, timeout_ms: u64) -> (r: ToolOutput)
        ensures
            is_failure(r, "timeout"@, "command exceeded "@ + decimal(timeout_ms as nat) + " ms"@),
    {
        let mut m = owned("command exceeded ");
        push_chars(&mut m, &decimal_chars(timeout_ms));
        push_str(&mut m, " ms");
        ToolOutput::failure("timeout", m.as_str())
    }

    /// The report of a command that could not be started.
    pub fn spawn_failed(&self, message: &str) -> (r: ToolOutput)
        ensures
            is_failure(r, "spawn_error"@, message@),
    {
        ToolOutput::failure("spawn_error", message)
    }
}

} // verus!
