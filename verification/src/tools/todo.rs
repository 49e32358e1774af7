//! `todo`: session-scoped todos kept in session memory.

use vstd::prelude::*;

use crate::error::{error_message, AgentError};
use crate::json::{
    array_text, field_text, item_texts, json_quoted, json_text, lemma_array_text, member_texts,
    object_text, Json, JsonNumber, ObjectBuilder,
};
use crate::model::{is_failure, is_success_text, owned, ToolOutput};
use crate::text::signed_decimal;
use crate::tools::args::{
    args_problem, field_value, problem_message, read_fields, FieldSpec, FieldType, FieldValue,
    TodoAction,
};
use crate::tools::ToolEffect;

verus! {

/// The description offered to the model.
pub const DESCRIPTION: &'static str =
    "Add, list, or complete todos isolated to the current user and session.";

/// Manages the session's todos.
pub struct TodoTool;

/// The arguments of a todo call.
#[derive(Debug, Clone, PartialEq)]
pub struct TodoArgs {
    pub action: TodoAction,
    pub title: Option<String>,
    pub id: Option<i64>,
}

/// One todo as the store lists it.
#[derive(Debug, Clone, PartialEq)]
pub struct TodoItem {
    pub id: i64,
    pub title: String,
    pub status: String,
}

/// The declared fields: `action` (required), `title` and `id` (optional).
pub open spec fn todo_fields() -> Seq<FieldSpec> {
    seq![
        FieldSpec { name: "action", ty: FieldType::Action, required: true },
        FieldSpec { name: "title", ty: FieldType::OptText, required: false },
        FieldSpec { name: "id", ty: FieldType::OptInt, required: false },
    ]
}

fn fields() -> (r: Vec<FieldSpec>)
    ensures
        r@ == todo_fields(),
{
    let mut v = Vec::new();
    v.push(FieldSpec { name: "action", ty: FieldType::Action, required: true });
    v.push(FieldSpec { name: "title", ty: FieldType::OptText, required: false });
    v.push(FieldSpec { name: "id", ty: FieldType::OptInt, required: false });
    assert(v@ =~= todo_fields());
    v
}

/// The action that the arguments ask for.
pub open spec fn todo_action(args: Json) -> Option<TodoAction> {
    match field_value(args, todo_fields(), 0) {
        Some(FieldValue::Action(a)) => Some(a),
        _ => None,
    }
}

/// The title that the arguments carry, if any.
pub open spec fn todo_title(args: Json) -> Option<Seq<char>> {
    match field_value(args, todo_fields(), 1) {
        Some(FieldValue::OptText(Some(t))) => Some(t@),
        _ => None,
    }
}

/// The id that the arguments carry, if any.
pub open spec fn todo_id(args: Json) -> Option<i64> {
    match field_value(args, todo_fields(), 2) {
        Some(FieldValue::OptInt(Some(i))) => Some(i),
        _ => None,
    }
}

/// Whether the arguments are accepted: they must read, `add` needs a
/// non-empty title and `complete` needs an id.
pub open spec fn todo_validation(args: Json) -> Result<(), Seq<char>> {
    match args_problem(args, todo_fields()) {
        Some(p) => Err(problem_message(p, todo_fields())),
        None => if todo_action(args) == Some(TodoAction::Add) && (todo_title(args) is None
            || todo_title(args)->0.len() == 0) {
            Err("title is required for add"@)
        } else if todo_action(args) == Some(TodoAction::Complete) && todo_id(args) is None {
            Err("id is required for complete"@)
        } else {
            Ok(())
        },
    }
}

/// Listing only observes; adding, completing and unreadable arguments count
/// as changes.
pub open spec fn todo_effect(args: Json) -> ToolEffect {
    if args_problem(args, todo_fields()) is None && todo_action(args) == Some(TodoAction::List) {
        ToolEffect::ReadOnly
    } else {
        ToolEffect::Mutating
    }
}

/// The text of one listed todo.
pub open spec fn item_text(item: TodoItem) -> Seq<char> {
    object_text(
        seq![
            field_text("id"@, signed_decimal(item.id as int)),
            field_text("status"@, json_quoted(item.status@)),
            field_text("title"@, json_quoted(item.title@)),
        ],
    )
}

/// An integer as a JSON number.
fn int_json(v: i64) -> (r: Json)
    ensures
        json_text(r) == signed_decimal(v as int),
{
    if v >= 0 {
        Json::Number(JsonNumber::PosInt(v as u64))
    } else {
        Json::Number(JsonNumber::NegInt(v))
    }
}

impl TodoTool {
    /// Reads the arguments (without the per-action checks).
    pub fn parse(&self, args: &Json) -> (r: Result<TodoArgs, String>)
        ensures
            match r {
                Ok(a) => args_problem(*args, todo_fields()) is None && todo_action(*args) == Some(
                    a.action,
                ) && todo_title(*args) == crate::model::opt_view(a.title) && todo_id(*args)
                    == a.id,
                Err(e) => args_problem(*args, todo_fields()) matches Some(p) && e@
                    == problem_message(p, todo_fields()),
            },
    {
        let specs = fields();
        let values = match read_fields(args, &specs) {
            Ok(v) => v,
            Err(e) => {
                return Err(e);
            },
        };
        proof {
            crate::tools::args::lemma_required_present(*args, todo_fields(), 0);
        }
        assert(values@[0] == field_value(*args, todo_fields(), 0));
        assert(values@[1] == field_value(*args, todo_fields(), 1));
        assert(values@[2] == field_value(*args, todo_fields(), 2));
        let title = match &values[1] {
            Some(FieldValue::OptText(t)) => crate::model::copy_opt(t),
            _ => None,
        };
        let id = match &values[2] {
            Some(FieldValue::OptInt(i)) => *i,
            _ => None,
        };
        match &values[0] {
            Some(FieldValue::Action(a)) => Ok(TodoArgs { action: *a, title, id }),
            _ => Err(owned("missing field `action`")),
        }
    }

    /// Checks the arguments.
    pub fn validate(&self, args: &Json) -> (r: Result<(), String>)
        ensures
            match r {
                Ok(()) => todo_validation(*args) is Ok,
                Err(e) => todo_validation(*args) == Err::<(), Seq<char>>(e@),
            },
    {
        let a = match self.parse(args) {
            Ok(a) => a,
            Err(e) => {
                return Err(e);
            },
        };
        match a.action {
            TodoAction::Add => {
                let empty = match &a.title {
                    None => true,
                    Some(t) => crate::text::chars_of(t.as_str()).len() == 0,
                };
                if empty {
                    return Err(owned("title is required for add"));
                }
            },
            TodoAction::Complete => {
                if a.id.is_none() {
                    return Err(owned("id is required for complete"));
                }
            },
            TodoAction::List => {},
        }
        Ok(())
    }

    /// Whether a call with these arguments only observes.
    pub fn effect(&self, args: &Json) -> (r: ToolEffect)
        ensures
            r == todo_effect(*args),
    {
        match self.parse(args) {
            Ok(a) => match a.action {
                TodoAction::List => ToolEffect::ReadOnly,
                _ => ToolEffect::Mutating,
            },
            Err(_) => ToolEffect::Mutating,
        }
    }

    /// The report of an `add`: the new id with status `open`, or the store's
    /// error as `database_error`.
    pub fn added(&self, result: Result<i64, AgentError>) -> (r: ToolOutput)
        ensures
            match result {
                Ok(id) => is_success_text(
                    r,
                    object_text(
                        seq![
                            field_text("id"@, signed_decimal(id as int)),
                            field_text("status"@, json_quoted("open"@)),
                        ],
                    ),
                ),
                Err(e) => is_failure(r, "database_error"@, error_message(e)),
            },
    {
        match result {
            Ok(id) => {
                let mut b = ObjectBuilder::new();
                b.add("id", int_json(id));
                b.add("status", Json::string("open"));
                let ghost be = b.entries();
                let d = b.finish();
                assert(member_texts(be) =~= seq![
                    field_text("id"@, signed_decimal(id as int)),
                    field_text("status"@, json_quoted("open"@)),
                ]);
                ToolOutput::success(d)
            },
            Err(e) => ToolOutput::failure("database_error", e.message().as_str()),
        }
    }

    /// The report of a `list`: `{"items":[...]}` in the store's order, or the
    /// store's error.
    pub fn listed(&self, result: Result<Vec<TodoItem>, AgentError>) -> (r: ToolOutput)
        ensures
            match result {
                Ok(items) => is_success_text(
                    r,
                    object_text(
                        seq![
                            field_text(
                                "items"@,
                                array_text(items@.map_values(|i: TodoItem| item_text(i))),
                            ),
                        ],
                    ),
                ),
                Err(e) => is_failure(r, "database_error"@, error_message(e)),
            },
    {
        match result {
            Ok(items) => {
                let mut out: Vec<Json> = Vec::new();
                let mut k: usize = 0;
                while k < items.len()
                    invariant
                        k <= items.len(),
                        out@.len() == k,
                        forall|q: int|
                            0 <= q < k ==> json_text(#[trigger] out@[q]) == item_text(items@[q]),
                    decreases items.len() - k,
                {
                    let it = &items[k];
                    let mut b = ObjectBuilder::new();
                    b.add("id", int_json(it.id));
                    b.add("status", Json::Str(it.status.clone()));
                    b.add("title", Json::Str(it.title.clone()));
                    let ghost be = b.entries();
                    let j = b.finish();
                    assert(member_texts(be) =~= seq![
                        field_text("id"@, signed_decimal(it.id as int)),
                        field_text("status"@, json_quoted(it.status@)),
                        field_text("title"@, json_quoted(it.title@)),
                    ]);
                    out.push(j);
                    k = k + 1;
                }
                assert(item_texts(out@) =~= items@.map_values(|i: TodoItem| item_text(i)));
                proof {
                    lemma_array_text(out);
                }
                let mut b = ObjectBuilder::new();
                b.add("items", Json::Array(out));
                let ghost be = b.entries();
                let d = b.finish();
                assert(member_texts(be) =~= seq![
                    field_text("items"@, array_text(items@.map_values(|i: TodoItem| item_text(i)))),
                ]);
                ToolOutput::success(d)
            },
            Err(e) => ToolOutput::failure("database_error", e.message().as_str()),
        }
    }

    /// The report of a `complete`: the id with status `completed` when a todo
    /// of this session changed, `not_found` when none did, or the store's
    /// error.
    pub fn completed(&self, id: Option<i64>, result: Result<bool, AgentError>) -> (r: ToolOutput)
        ensures
            match result {
                Ok(true) => is_success_text(
                    r,
                    object_text(
                        seq![
                            field_text(
                                "id"@,
                                match id {
                                    Some(i) => signed_decimal(i as int),
                                    None => "null"@,
                                },
                            ),
                            field_text("status"@, json_quoted("completed"@)),
                        ],
                    ),
                ),
                Ok(false) => is_failure(r, "not_found"@, "todo does not exist in this session"@),
                Err(e) => is_failure(r, "database_error"@, error_message(e)),
            },
    {
        match result {
            Ok(true) => {
                let mut b = ObjectBuilder::new();
                match id {
                    Some(i) => b.add("id", int_json(i)),
                    None => b.add("id", Json::Null),
                }
                b.add("status", Json::string("completed"));
                let ghost be = b.entries();
                let d = b.finish();
                proof {
                    reveal_strlit("null");
                    assert(json_text(be[0].value) == match id {
                        Some(i) => signed_decimal(i as int),
                        None => "null"@,
                    });
                    assert(member_texts(be) =~= seq![
                        field_text(
                            "id"@,
                            match id {
                                Some(i) => signed_decimal(i as int),
                                None => "null"@,
                            },
                        ),
                        field_text("status"@, json_quoted("completed"@)),
                    ]);
                }
                ToolOutput::success(d)
            },
            Ok(false) => ToolOutput::failure("not_found", "todo does not exist in this session"),
            Err(e) => ToolOutput::failure("database_error", e.message().as_str()),
        }
    }
}

} // verus!
