//! `calculator`: evaluates an arithmetic expression.

use vstd::prelude::*;

use crate::json::{Json, JsonNumber, ObjectBuilder};
use crate::model::{is_failure, is_success_text, ToolOutput};
use crate::tools::args::{args_problem, field_value, problem_message, read_fields, FieldSpec, FieldType, FieldValue};
use crate::tools::ToolEffect;

verus! {

/// The description offered to the model.
pub const DESCRIPTION: &'static str = "Evaluate a mathematical expression safely.";

/// Evaluates arithmetic expressions.
pub struct CalculatorTool;

/// The arguments of a calculation.
#[derive(Debug, Clone, PartialEq)]
pub struct CalculatorArgs {
    pub expression: String,
}

/// The declared fields: `expression`, a required string.
pub open spec fn calculator_fields() -> Seq<FieldSpec> {
    seq![FieldSpec { name: "expression", ty: FieldType::Text, required: true }]
}

fn fields() -> (r: Vec<FieldSpec>)
    ensures
        r@ == calculator_fields(),
{
    let mut v = Vec::new();
    v.push(FieldSpec { name: "expression", ty: FieldType::Text, required: true });
    assert(v@ =~= calculator_fields());
    v
}

/// Whether the arguments are accepted, and why not.
pub open spec fn calculator_validation(args: Json) -> Result<(), Seq<char>> {
    match args_problem(args, calculator_fields()) {
        Some(p) => Err(problem_message(p, calculator_fields())),
        None => Ok(()),
    }
}

/// How an evaluation ended: a finite number (with its JSON text), a number
/// that is NaN or infinite, or an evaluation error.
pub enum Evaluation {
    Finite(String),
    NonFinite,
    Failed(String),
}

impl CalculatorTool {
    /// Reads the arguments.
    pub fn parse(&self, args: &Json) -> (r: Result<CalculatorArgs, String>)
        ensures
            match r {
                Ok(a) => calculator_validation(*args) is Ok && field_value(
                    *args,
                    calculator_fields(),
                    0,
                ) == Some(FieldValue::Text(a.expression)),
                Err(e) => calculator_validation(*args) == Err::<(), Seq<char>>(e@),
            },
    {
        let specs = fields();
        let mut values = match read_fields(args, &specs) {
            Ok(v) => v,
            Err(e) => {
                return Err(e);
            },
        };
        proof {
            crate::tools::args::lemma_required_present(*args, calculator_fields(), 0);
        }
        assert(values@[0] == field_value(*args, calculator_fields(), 0));
        match values.remove(0) {
            Some(FieldValue::Text(expression)) => Ok(CalculatorArgs { expression }),
            _ => Err(crate::model::owned("missing field `expression`")),
        }
    }

    /// Checks the arguments.
    pub fn validate(&self, args: &Json) -> (r: Result<(), String>)
        ensures
            match r {
                Ok(()) => calculator_validation(*args) is Ok,
                Err(e) => calculator_validation(*args) == Err::<(), Seq<char>>(e@),
            },
    {
        let specs = fields();
        match read_fields(args, &specs) {
            Ok(_) => Ok(()),
            Err(e) => Err(e),
        }
    }

    /// Calculations only observe.
    pub fn effect(&self, _args: &Json) -> (r: ToolEffect)
        ensures
            r == ToolEffect::ReadOnly,
    {
        ToolEffect::ReadOnly
    }

    /// The tool's result for an evaluation: `{"result": n}` for a finite
    /// number, `non_finite_result` for NaN or infinity, `calculation_error`
    /// with the evaluator's message otherwise.
    pub fn output(&self, evaluation: Evaluation) -> (r: ToolOutput)
        ensures
            match evaluation {
                Evaluation::Finite(text) => is_success_text(
                    r,
                    crate::json::object_text(seq![crate::json::field_text("result"@, text@)]),
                ),
                Evaluation::NonFinite => is_failure(
                    r,
                    "non_finite_result"@,
                    "expression produced NaN or infinity"@,
                ),
                Evaluation::Failed(m) => is_failure(r, "calculation_error"@, m@),
            },
    {
        match evaluation {
            Evaluation::Finite(text) => {
                let ghost t = text@;
                let mut b = ObjectBuilder::new();
                b.add("result", Json::Number(JsonNumber::Float(text)));
                let ghost be = b.entries();
                let d = b.finish();
                assert(crate::json::member_texts(be) =~= seq![crate::json::field_text("result"@, t)]);
                ToolOutput::success(d)
            },
            Evaluation::NonFinite => ToolOutput::failure(
                "non_finite_result",
                "expression produced NaN or infinity",
            ),
            Evaluation::Failed(m) => ToolOutput::failure("calculation_error", m.as_str()),
        }
    }
}

} // verus!
