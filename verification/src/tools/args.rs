//! Reading a tool's arguments from JSON: an object whose members are the
//! tool's fields, with no unknown fields, each of the declared type.

use vstd::prelude::*;

use crate::json::{key_index, lemma_key_index, Json, JsonMember, JsonNumber};
use crate::model::owned;
use crate::text::{
    chars_of, decimal, decimal_chars, push_chars, push_str, signed_decimal, signed_decimal_chars,
};

verus! {

/// The type that an argument field accepts.
#[derive(Debug, Clone, Copy, PartialEq, Eq, Structural)]
pub enum FieldType {
    /// A string.
    Text,
    /// A non-negative integer that fits in `usize`.
    Count,
    /// A non-negative integer that fits in `u64`.
    Unsigned,
    /// A string or `null`.
    OptText,
    /// An integer that fits in `i64`, or `null`.
    OptInt,
    /// One of the todo actions `add`, `list`, `complete`.
    Action,
}

/// What the todo tool is asked to do.
#[derive(Debug, Clone, Copy, PartialEq, Eq, Structural)]
pub enum TodoAction {
    Add,
    List,
    Complete,
}

/// The todo action named by `name`.
pub open spec fn action_named(name: Seq<char>) -> Option<TodoAction> {
    if name == "add"@ {
        Some(TodoAction::Add)
    } else if name == "list"@ {
        Some(TodoAction::List)
    } else if name == "complete"@ {
        Some(TodoAction::Complete)
    } else {
        None
    }
}

/// One field of a tool's arguments.
pub struct FieldSpec {
    pub name: &'static str,
    pub ty: FieldType,
    pub required: bool,
}

/// The value read for one field.
#[derive(Debug, Clone, PartialEq)]
pub enum FieldValue {
    Text(String),
    Count(usize),
    Unsigned(u64),
    OptText(Option<String>),
    OptInt(Option<i64>),
    Action(TodoAction),
}

/// Why arguments were refused.
pub enum ArgProblem {
    /// The arguments are this value, which is not an object.
    NotObject(Json),
    /// A member with this key is not a declared field.
    Unknown(Seq<char>),
    /// A member holds this value, which the field's type does not accept.
    BadValue(FieldType, Json),
    /// A required field is absent.
    Missing(Seq<char>),
}

/// The names of the declared fields.
pub open spec fn field_names(specs: Seq<FieldSpec>) -> Seq<Seq<char>> {
    specs.map_values(|f: FieldSpec| f.name@)
}

/// The index of the field named `key`, or `-1`.
pub open spec fn spec_index(specs: Seq<FieldSpec>, key: Seq<char>, i: int) -> int
    decreases specs.len() - i,
{
    if i < 0 || i >= specs.len() {
        -1
    } else if specs[i].name@ == key {
        i
    } else {
        spec_index(specs, key, i + 1)
    }
}

/// What value a JSON value gives for a field of type `ty`, if it fits.
pub open spec fn value_of(ty: FieldType, j: Json) -> Option<FieldValue> {
    match ty {
        FieldType::Text => match j {
            Json::Str(s) => Some(FieldValue::Text(s)),
            _ => None,
        },
        FieldType::Count => match j {
            Json::Number(JsonNumber::PosInt(u)) => if u <= usize::MAX {
                Some(FieldValue::Count(u as usize))
            } else {
                None
            },
            _ => None,
        },
        FieldType::Unsigned => match j {
            Json::Number(JsonNumber::PosInt(u)) => Some(FieldValue::Unsigned(u)),
            _ => None,
        },
        FieldType::OptText => match j {
            Json::Null => Some(FieldValue::OptText(None)),
            Json::Str(s) => Some(FieldValue::OptText(Some(s))),
            _ => None,
        },
        FieldType::OptInt => match j {
            Json::Null => Some(FieldValue::OptInt(None)),
            Json::Number(JsonNumber::PosInt(u)) => if u <= i64::MAX {
                Some(FieldValue::OptInt(Some(u as i64)))
            } else {
                None
            },
            Json::Number(JsonNumber::NegInt(i)) => Some(FieldValue::OptInt(Some(i))),
            _ => None,
        },
        FieldType::Action => match j {
            Json::Str(s) => match action_named(s@) {
                Some(a) => Some(FieldValue::Action(a)),
                None => None,
            },
            Json::Object(ms) => if ms@.len() == 1 && ms@[0].value is Null {
                match action_named(ms@[0].key@) {
                    Some(a) => Some(FieldValue::Action(a)),
                    None => None,
                }
            } else {
                None
            },
            _ => None,
        },
    }
}

/// The first problem among the members from index `i` on: an unknown key or
/// a value of the wrong type, in member order.
pub open spec fn member_problem(
    members: Seq<JsonMember>,
    specs: Seq<FieldSpec>,
    i: int,
) -> Option<ArgProblem>
    decreases members.len() - i,
{
    if i < 0 || i >= members.len() {
        None
    } else {
        let k = spec_index(specs, members[i].key@, 0);
        if k < 0 {
            Some(ArgProblem::Unknown(members[i].key@))
        } else if value_of(specs[k].ty, members[i].value) is None {
            Some(ArgProblem::BadValue(specs[k].ty, members[i].value))
        } else {
            member_problem(members, specs, i + 1)
        }
    }
}

/// The first required field, from index `i` on, that is absent.
pub open spec fn missing_problem(
    members: Seq<JsonMember>,
    specs: Seq<FieldSpec>,
    i: int,
) -> Option<ArgProblem>
    decreases specs.len() - i,
{
    if i < 0 || i >= specs.len() {
        None
    } else if specs[i].required && key_index(members, specs[i].name@, 0) < 0 {
        Some(ArgProblem::Missing(specs[i].name@))
    } else {
        missing_problem(members, specs, i + 1)
    }
}

/// The problem with a JSON value as arguments, if any: not an object, then
/// the first bad member in order, then the first missing required field.
pub open spec fn args_problem(j: Json, specs: Seq<FieldSpec>) -> Option<ArgProblem> {
    match j {
        Json::Object(ms) => match member_problem(ms@, specs, 0) {
            Some(p) => Some(p),
            None => missing_problem(ms@, specs, 0),
        },
        _ => Some(ArgProblem::NotObject(j)),
    }
}

/// The value read for field `k`: the member's value when present, otherwise
/// none.
pub open spec fn field_value(j: Json, specs: Seq<FieldSpec>, k: int) -> Option<FieldValue> {
    match j {
        Json::Object(ms) => {
            let m = key_index(ms@, specs[k].name@, 0);
            if m >= 0 {
                value_of(specs[k].ty, ms@[m].value)
            } else {
                None
            }
        },
        _ => None,
    }
}

proof fn lemma_missing_none(members: Seq<JsonMember>, specs: Seq<FieldSpec>, i: int, k: int)
    requires
        0 <= i <= k < specs.len(),
        missing_problem(members, specs, i) is None,
        specs[k].required,
    ensures
        key_index(members, specs[k].name@, 0) >= 0,
    decreases k - i,
{
    if i < k {
        lemma_missing_none(members, specs, i + 1, k);
    }
}

proof fn lemma_member_none(members: Seq<JsonMember>, specs: Seq<FieldSpec>, i: int, m: int)
    requires
        0 <= i <= m < members.len(),
        member_problem(members, specs, i) is None,
    ensures
        spec_index(specs, members[m].key@, 0) >= 0,
        value_of(specs[spec_index(specs, members[m].key@, 0)].ty, members[m].value) is Some,
    decreases m - i,
{
    if i < m {
        lemma_member_none(members, specs, i + 1, m);
    }
}

/// With arguments that read, every required field has a value.
pub proof fn lemma_required_present(j: Json, specs: Seq<FieldSpec>, k: int)
    requires
        args_problem(j, specs) is None,
        0 <= k < specs.len(),
        specs[k].required,
        spec_index(specs, specs[k].name@, 0) == k,
    ensures
        field_value(j, specs, k) is Some,
{
    match j {
        Json::Object(ms) => {
            lemma_missing_none(ms@, specs, 0, k);
            let m = key_index(ms@, specs[k].name@, 0);
            lemma_key_index(ms@, specs[k].name@, 0);
            lemma_member_none(ms@, specs, 0, m);
        },
        _ => {},
    }
}

/// serde's list of expected field names: "`a`", "`a` or `b`",
/// "one of `a`, `b`, `c`".
pub open spec fn expected_list(names: Seq<Seq<char>>) -> Seq<char> {
    if names.len() == 0 {
        "there are no fields"@
    } else if names.len() == 1 {
        ticked(names[0])
    } else if names.len() == 2 {
        ticked(names[0]) + " or "@ + ticked(names[1])
    } else {
        "one of "@ + ticked_list(names, names.len() as int)
    }
}

/// `name` between backticks.
pub open spec fn ticked(name: Seq<char>) -> Seq<char> {
    seq!['`'] + name + seq!['`']
}

/// The first `n` names between backticks, separated by ", ".
pub open spec fn ticked_list(names: Seq<Seq<char>>, n: int) -> Seq<char>
    decreases n,
{
    if n <= 0 || n > names.len() {
        Seq::empty()
    } else if n == 1 {
        ticked(names[0])
    } else {
        ticked_list(names, n - 1) + ", "@ + ticked(names[n - 1])
    }
}

/// Rust's debug form of a string: the text between double quotes, with
/// quotes, backslashes and unprintable characters escaped.
pub uninterp spec fn debug_quoted(s: Seq<char>) -> Seq<char>;

/// The debug form of a string, as `{:?}` formats it.
#[verifier::external_body]
fn debug_quote(s: &str) -> (r: String)
    ensures
        r@ == debug_quoted(s@),
{
    format!("{:?}", s)
}

/// How an unexpected JSON value is named in a refusal.
pub open spec fn unexpected_text(j: Json) -> Seq<char> {
    match j {
        Json::Null => "null"@,
        Json::Bool(b) => "boolean `"@ + crate::model::bool_text(b) + "`"@,
        Json::Number(JsonNumber::PosInt(u)) => "integer `"@ + decimal(u as nat) + "`"@,
        Json::Number(JsonNumber::NegInt(i)) => "integer `"@ + signed_decimal(i as int) + "`"@,
        Json::Number(JsonNumber::Float(t)) => "floating point `"@ + t@ + "`"@,
        Json::Str(s) => "string "@ + debug_quoted(s@),
        Json::Array(_) => "sequence"@,
        Json::Object(_) => "map"@,
    }
}

/// What a field of type `ty` expects, as a refusal says it.
pub open spec fn expected_text(ty: FieldType) -> Seq<char> {
    match ty {
        FieldType::Text => "a string"@,
        FieldType::OptText => "a string"@,
        FieldType::Count => "usize"@,
        FieldType::Unsigned => "u64"@,
        FieldType::OptInt => "i64"@,
        FieldType::Action => "string or map"@,
    }
}

/// The refusal of a todo action name.
pub open spec fn unknown_variant(name: Seq<char>) -> Seq<char> {
    "unknown variant "@ + ticked(name) + ", expected one of `add`, `list`, `complete`"@
}

/// The refusal of value `j` for a field of type `ty`: an integer out of the
/// type's range is an invalid value, an action that is not one of the three
/// names is an unknown variant, and anything else is an invalid type.
pub open spec fn bad_value_message(ty: FieldType, j: Json) -> Seq<char> {
    let invalid_type = "invalid type: "@ + unexpected_text(j) + ", expected "@ + expected_text(ty);
    let invalid_value = "invalid value: "@ + unexpected_text(j) + ", expected "@ + expected_text(ty);
    match ty {
        FieldType::Count => match j {
            Json::Number(JsonNumber::PosInt(_)) => invalid_value,
            Json::Number(JsonNumber::NegInt(_)) => invalid_value,
            _ => invalid_type,
        },
        FieldType::Unsigned => match j {
            Json::Number(JsonNumber::NegInt(_)) => invalid_value,
            _ => invalid_type,
        },
        FieldType::OptInt => match j {
            Json::Number(JsonNumber::PosInt(_)) => invalid_value,
            _ => invalid_type,
        },
        FieldType::Action => match j {
            Json::Str(s) => unknown_variant(s@),
            Json::Object(ms) => if ms@.len() != 1 {
                "invalid value: map, expected map with a single key"@
            } else if action_named(ms@[0].key@) is None {
                unknown_variant(ms@[0].key@)
            } else {
                "invalid type: "@ + unexpected_text(ms@[0].value) + ", expected "@ + "unit"@
            },
            _ => invalid_type,
        },
        _ => invalid_type,
    }
}

/// How an unexpected JSON value is named (executable).
fn unexpected_string(j: &Json) -> (r: String)
    ensures
        r@ == unexpected_text(*j),
{
    match j {
        Json::Null => owned("null"),
        Json::Bool(b) => {
            let mut s = owned("boolean `");
            push_str(&mut s, if *b { "true" } else { "false" });
            push_str(&mut s, "`");
            proof {
                reveal_strlit("true");
                reveal_strlit("false");
                assert("true"@ =~= seq!['t', 'r', 'u', 'e']);
                assert("false"@ =~= seq!['f', 'a', 'l', 's', 'e']);
            }
            s
        },
        Json::Number(JsonNumber::PosInt(u)) => {
            let mut s = owned("integer `");
            push_chars(&mut s, &decimal_chars(*u));
            push_str(&mut s, "`");
            s
        },
        Json::Number(JsonNumber::NegInt(i)) => {
            let mut s = owned("integer `");
            push_chars(&mut s, &signed_decimal_chars(*i));
            push_str(&mut s, "`");
            s
        },
        Json::Number(JsonNumber::Float(t)) => {
            let mut s = owned("floating point `");
            push_str(&mut s, t.as_str());
            push_str(&mut s, "`");
            s
        },
        Json::Str(text) => {
            let mut s = owned("string ");
            push_str(&mut s, debug_quote(text.as_str()).as_str());
            s
        },
        Json::Array(_) => owned("sequence"),
        Json::Object(_) => owned("map"),
    }
}

/// What a field of type `ty` expects (executable).
fn expected_str(ty: FieldType) -> (r: &'static str)
    ensures
        r@ == expected_text(ty),
{
    match ty {
        FieldType::Text => "a string",
        FieldType::OptText => "a string",
        FieldType::Count => "usize",
        FieldType::Unsigned => "u64",
        FieldType::OptInt => "i64",
        FieldType::Action => "string or map",
    }
}

/// `prefix`, the name of `j`, `, expected ` and `expected`.
fn refusal(prefix: &str, j: &Json, expected: &str) -> (r: String)
    ensures
        r@ == prefix@ + unexpected_text(*j) + ", expected "@ + expected@,
{
    let mut s = owned(prefix);
    push_str(&mut s, unexpected_string(j).as_str());
    push_str(&mut s, ", expected ");
    push_str(&mut s, expected);
    s
}

/// The refusal of an unknown todo action name (executable).
fn unknown_variant_string(name: &str) -> (r: String)
    ensures
        r@ == unknown_variant(name@),
{
    let mut s = owned("unknown variant ");
    push_ticked(&mut s, name);
    push_str(&mut s, ", expected one of `add`, `list`, `complete`");
    s
}

/// The refusal of value `j` for a field of type `ty` (executable).
fn bad_value_string(ty: FieldType, j: &Json) -> (r: String)
    ensures
        r@ == bad_value_message(ty, *j),
{
    let expected = expected_str(ty);
    match ty {
        FieldType::Count => match j {
            Json::Number(JsonNumber::PosInt(_)) => refusal("invalid value: ", j, expected),
            Json::Number(JsonNumber::NegInt(_)) => refusal("invalid value: ", j, expected),
            _ => refusal("invalid type: ", j, expected),
        },
        FieldType::Unsigned => match j {
            Json::Number(JsonNumber::NegInt(_)) => refusal("invalid value: ", j, expected),
            _ => refusal("invalid type: ", j, expected),
        },
        FieldType::OptInt => match j {
            Json::Number(JsonNumber::PosInt(_)) => refusal("invalid value: ", j, expected),
            _ => refusal("invalid type: ", j, expected),
        },
        FieldType::Action => match j {
            Json::Str(s) => unknown_variant_string(s.as_str()),
            Json::Object(ms) => {
                if ms.len() != 1 {
                    owned("invalid value: map, expected map with a single key")
                } else if action_of(ms[0].key.as_str()).is_none() {
                    unknown_variant_string(ms[0].key.as_str())
                } else {
                    refusal("invalid type: ", &ms[0].value, "unit")
                }
            },
            _ => refusal("invalid type: ", j, expected),
        },
        _ => refusal("invalid type: ", j, expected),
    }
}

/// The todo action named by `name` (executable).
fn action_of(name: &str) -> (r: Option<TodoAction>)
    ensures
        r == action_named(name@),
{
    let c = chars_of(name);
    if crate::text::chars_eq_str(&c, "add") {
        Some(TodoAction::Add)
    } else if crate::text::chars_eq_str(&c, "list") {
        Some(TodoAction::List)
    } else if crate::text::chars_eq_str(&c, "complete") {
        Some(TodoAction::Complete)
    } else {
        None
    }
}

/// The message for an argument problem.
pub open spec fn problem_message(p: ArgProblem, specs: Seq<FieldSpec>) -> Seq<char> {
    match p {
        ArgProblem::NotObject(v) => "invalid type: "@ + unexpected_text(v) + ", expected "@ + "struct Args"@,
        ArgProblem::Unknown(k) => "unknown field "@ + ticked(k) + ", expected "@ + expected_list(
            field_names(specs),
        ),
        ArgProblem::BadValue(ty, v) => bad_value_message(ty, v),
        ArgProblem::Missing(k) => "missing field "@ + ticked(k),
    }
}

/// Appends `name` between backticks.
fn push_ticked(s: &mut String, name: &str)
    ensures
        final(s)@ == old(s)@ + ticked(name@),
{
    crate::text::push_char(s, '`');
    push_str(s, name);
    crate::text::push_char(s, '`');
    assert(final(s)@ =~= old(s)@ + ticked(name@));
}

/// The list of expected field names.
fn expected_names(specs: &[FieldSpec]) -> (r: String)
    ensures
        r@ == expected_list(field_names(specs@)),
{
    let ghost names = field_names(specs@);
    if specs.len() == 0 {
        owned("there are no fields")
    } else if specs.len() == 1 {
        let mut s = String::new();
        push_ticked(&mut s, specs[0].name);
        assert(s@ =~= ticked(names[0]));
        s
    } else if specs.len() == 2 {
        let mut s = String::new();
        push_ticked(&mut s, specs[0].name);
        push_str(&mut s, " or ");
        push_ticked(&mut s, specs[1].name);
        assert(s@ =~= ticked(names[0]) + " or "@ + ticked(names[1]));
        s
    } else {
        let mut s = owned("one of ");
        let mut i: usize = 0;
        while i < specs.len()
            invariant
                i <= specs.len(),
                names == field_names(specs@),
                s@ == "one of "@ + ticked_list(names, i as int),
            decreases specs.len() - i,
        {
            if i > 0 {
                push_str(&mut s, ", ");
            }
            push_ticked(&mut s, specs[i].name);
            proof {
                if i == 0 {
                    assert(s@ =~= "one of "@ + ticked_list(names, 1));
                } else {
                    assert(s@ =~= "one of "@ + ticked_list(names, i + 1));
                }
            }
            i = i + 1;
        }
        s
    }
}

/// The message for an unknown or a missing field (executable).
fn problem_text(p: Ghost<ArgProblem>, missing: bool, key: &str, specs: &[FieldSpec]) -> (r: String)
    requires
        !missing ==> p@ == ArgProblem::Unknown(key@),
        missing ==> p@ == ArgProblem::Missing(key@),
    ensures
        r@ == problem_message(p@, specs@),
{
    if !missing {
        let mut s = owned("unknown field ");
        push_ticked(&mut s, key);
        push_str(&mut s, ", expected ");
        let e = expected_names(specs);
        push_str(&mut s, e.as_str());
        s
    } else {
        let mut s = owned("missing field ");
        push_ticked(&mut s, key);
        s
    }
}

/// The index of the field named `key` (executable).
fn find_spec(specs: &[FieldSpec], key: &str) -> (r: Option<usize>)
    ensures
        match r {
            Some(k) => k as int == spec_index(specs@, key@, 0) && k < specs.len(),
            None => spec_index(specs@, key@, 0) == -1,
        },
{
    let kc = chars_of(key);
    let mut i: usize = 0;
    while i < specs.len()
        invariant
            i <= specs.len(),
            kc@ == key@,
            spec_index(specs@, key@, 0) == spec_index(specs@, key@, i as int),
        decreases specs.len() - i,
    {
        let nc = chars_of(specs[i].name);
        if crate::text::chars_eq(&nc, &kc) {
            return Some(i);
        }
        i = i + 1;
    }
    None
}

/// Reads a JSON value as a field of type `ty`.
fn read_value(ty: FieldType, j: &Json) -> (r: Option<FieldValue>)
    ensures
        r == value_of(ty, *j),
{
    match ty {
        FieldType::Text => match j {
            Json::Str(s) => Some(FieldValue::Text(s.clone())),
            _ => None,
        },
        FieldType::Count => match j {
            Json::Number(JsonNumber::PosInt(u)) => if *u <= usize::MAX as u64 {
                Some(FieldValue::Count(*u as usize))
            } else {
                None
            },
            _ => None,
        },
        FieldType::Unsigned => match j {
            Json::Number(JsonNumber::PosInt(u)) => Some(FieldValue::Unsigned(*u)),
            _ => None,
        },
        FieldType::OptText => match j {
            Json::Null => Some(FieldValue::OptText(None)),
            Json::Str(s) => Some(FieldValue::OptText(Some(s.clone()))),
            _ => None,
        },
        FieldType::OptInt => match j {
            Json::Null => Some(FieldValue::OptInt(None)),
            Json::Number(JsonNumber::PosInt(u)) => if *u <= i64::MAX as u64 {
                Some(FieldValue::OptInt(Some(*u as i64)))
            } else {
                None
            },
            Json::Number(JsonNumber::NegInt(i)) => Some(FieldValue::OptInt(Some(*i))),
            _ => None,
        },
        FieldType::Action => match j {
            Json::Str(s) => match action_of(s.as_str()) {
                Some(a) => Some(FieldValue::Action(a)),
                None => None,
            },
            Json::Object(ms) => if ms.len() == 1 && matches!(ms[0].value, Json::Null) {
                match action_of(ms[0].key.as_str()) {
                    Some(a) => Some(FieldValue::Action(a)),
                    None => None,
                }
            } else {
                None
            },
            _ => None,
        },
    }
}

/// Reads arguments: on success, the value of each declared field (none for an
/// absent optional field); on failure, the message for the first problem.
#[verifier::loop_isolation(false)]
pub fn read_fields(j: &Json, specs: &[FieldSpec]) -> (r: Result<Vec<Option<FieldValue>>, String>)
    ensures
        match r {
            Ok(values) => args_problem(*j, specs@) is None && values@.len() == specs@.len() && (
            forall|k: int| 0 <= k < specs@.len() ==> #[trigger] values@[k] == field_value(
                *j,
                specs@,
                k,
            )),
            Err(msg) => args_problem(*j, specs@) matches Some(p) && msg@ == problem_message(
                p,
                specs@,
            ),
        },
{
    let members = match j {
        Json::Object(ms) => ms,
        _ => {
            let msg = refusal("invalid type: ", j, "struct Args");
            assert(args_problem(*j, specs@) == Some(ArgProblem::NotObject(*j)));
            return Err(msg);
        },
    };
    let mut i: usize = 0;
    while i < members.len()
        invariant
            i <= members.len(),
            member_problem(members@, specs@, 0) == member_problem(members@, specs@, i as int),
        decreases members.len() - i,
    {
        let key = members[i].key.as_str();
        match find_spec(specs, key) {
            None => {
                return Err(problem_text(Ghost(ArgProblem::Unknown(key@)), false, key, specs));
            },
            Some(k) => {
                if read_value(specs[k].ty, &members[i].value).is_none() {
                    return Err(bad_value_string(specs[k].ty, &members[i].value));
                }
            },
        }
        i = i + 1;
    }
    let mut f: usize = 0;
    while f < specs.len()
        invariant
            f <= specs.len(),
            member_problem(members@, specs@, 0) is None,
            missing_problem(members@, specs@, 0) == missing_problem(members@, specs@, f as int),
        decreases specs.len() - f,
    {
        if specs[f].required {
            let nc = chars_of(specs[f].name);
            if crate::json::find_key(members, &nc).is_none() {
                return Err(
                    problem_text(Ghost(ArgProblem::Missing(specs@[f as int].name@)), true, specs[f].name, specs),
                );
            }
        }
        f = f + 1;
    }
    let mut values: Vec<Option<FieldValue>> = Vec::new();
    let mut k: usize = 0;
    while k < specs.len()
        invariant
            k <= specs.len(),
            values@.len() == k,
            forall|q: int| 0 <= q < k ==> #[trigger] values@[q] == field_value(*j, specs@, q),
        decreases specs.len() - k,
    {
        let nc = chars_of(specs[k].name);
        match crate::json::find_key(members, &nc) {
            Some(m) => {
                proof {
                    lemma_key_index(members@, specs@[k as int].name@, 0);
                }
                values.push(read_value(specs[k].ty, &members[m].value));
            },
            None => {
                values.push(None);
            },
        }
        k = k + 1;
    }
    Ok(values)
}

} // verus!
