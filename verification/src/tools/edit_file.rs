//! `edit_file`: creates a file or replaces one exact, unique occurrence.

use vstd::prelude::*;
use vstd::string::StrSliceExecFns;

use crate::json::{field_text, json_quoted, member_texts, object_text, Json, JsonNumber, ObjectBuilder};
use crate::model::{is_failure, is_success_text, owned, ToolOutput};
use crate::text::{
    chars_of, count_from, count_occurrences, decimal, decimal_chars, find_first, first_from,
    lemma_first_from, occurs_at, push_chars, push_str, slice_vec, string_of, utf8_len, utf8_length,
};
use crate::tools::args::{
    args_problem, field_value, problem_message, read_fields, spec_index, FieldSpec, FieldType,
    FieldValue,
};
use crate::tools::ToolEffect;

verus! {

/// The description offered to the model.
pub const DESCRIPTION: &'static str =
    "Create a text file or replace one exact, unique text occurrence. Relative and absolute paths are allowed.";

/// Creates files and edits them by exact replacement.
pub struct EditFileTool;

/// What an edit does first, given its arguments and whether the file exists.
#[derive(Debug, Clone, Copy, PartialEq, Eq, Structural)]
pub enum EditStep {
    /// `old_text` is empty and the file is absent: write `new_text` as a new
    /// file.
    Create,
    /// `old_text` is empty but the file exists: refuse.
    AlreadyExists,
    /// `old_text` is not empty: read the file and replace the occurrence.
    Replace,
}

/// The first step of an edit: an empty `old_text` asks to create the file,
/// which is refused when it exists; otherwise the file is edited in place.
pub open spec fn edit_step(old_text: Seq<char>, exists: bool) -> EditStep {
    if old_text.len() == 0 {
        if exists {
            EditStep::AlreadyExists
        } else {
            EditStep::Create
        }
    } else {
        EditStep::Replace
    }
}

/// The arguments of an edit.
#[derive(Debug, Clone, PartialEq)]
pub struct EditArgs {
    pub path: String,
    pub old_text: String,
    pub new_text: String,
}

/// The declared fields: `path`, `old_text`, `new_text`, all required strings.
pub open spec fn edit_fields() -> Seq<FieldSpec> {
    seq![
        FieldSpec { name: "path", ty: FieldType::Text, required: true },
        FieldSpec { name: "old_text", ty: FieldType::Text, required: true },
        FieldSpec { name: "new_text", ty: FieldType::Text, required: true },
    ]
}

fn fields() -> (r: Vec<FieldSpec>)
    ensures
        r@ == edit_fields(),
{
    let mut v = Vec::new();
    v.push(FieldSpec { name: "path", ty: FieldType::Text, required: true });
    v.push(FieldSpec { name: "old_text", ty: FieldType::Text, required: true });
    v.push(FieldSpec { name: "new_text", ty: FieldType::Text, required: true });
    assert(v@ =~= edit_fields());
    v
}

/// Whether the arguments are accepted, and why not.
pub open spec fn edit_validation(args: Json) -> Result<(), Seq<char>> {
    match args_problem(args, edit_fields()) {
        Some(p) => Err(problem_message(p, edit_fields())),
        None => Ok(()),
    }
}

/// `current` with its first occurrence of `old` replaced by `new`
/// (`str::replacen(old, new, 1)`).
pub open spec fn replace_first(current: Seq<char>, old: Seq<char>, new: Seq<char>) -> Seq<char> {
    let p = first_from(current, old, 0);
    current.take(p) + new + current.skip(p + old.len())
}

/// The message for a match count other than one.
pub open spec fn match_count_message(count: nat) -> Seq<char> {
    "old_text must match exactly once; found "@ + decimal(count)
}

/// The text of the data reported after creating a file.
pub open spec fn created_text(path: Seq<char>, new_text: Seq<char>) -> Seq<char> {
    object_text(
        seq![
            field_text("bytes_written"@, decimal(utf8_len(new_text))),
            field_text("created"@, seq!['t', 'r', 'u', 'e']),
            field_text("path"@, json_quoted(path)),
        ],
    )
}

/// The text of the data reported after replacing text.
pub open spec fn replaced_text(path: Seq<char>, current: Seq<char>, updated: Seq<char>) -> Seq<char> {
    object_text(
        seq![
            field_text("created"@, seq!['f', 'a', 'l', 's', 'e']),
            field_text("new_bytes"@, decimal(utf8_len(updated))),
            field_text("old_bytes"@, decimal(utf8_len(current))),
            field_text("path"@, json_quoted(path)),
        ],
    )
}

impl EditFileTool {
    /// Reads the arguments.
    pub fn parse(&self, args: &Json) -> (r: Result<EditArgs, String>)
        ensures
            match r {
                Ok(a) => edit_validation(*args) is Ok && field_value(*args, edit_fields(), 0)
                    == Some(FieldValue::Text(a.path)) && field_value(*args, edit_fields(), 1)
                    == Some(FieldValue::Text(a.old_text)) && field_value(*args, edit_fields(), 2)
                    == Some(FieldValue::Text(a.new_text)),
                Err(e) => edit_validation(*args) == Err::<(), Seq<char>>(e@),
            },
    {
        let specs = fields();
        let values = match read_fields(args, &specs) {
            Ok(v) => v,
            Err(e) => {
                return Err(e);
            },
        };
        proof {
            reveal_strlit("path");
            reveal_strlit("old_text");
            reveal_strlit("new_text");
            assert("path"@.len() != "old_text"@.len());
            assert("path"@.len() != "new_text"@.len());
            assert("old_text"@[0] != "new_text"@[0]);
            assert(edit_fields()[1].name@ != edit_fields()[0].name@);
            assert(edit_fields()[2].name@ != edit_fields()[0].name@);
            assert(edit_fields()[2].name@ != edit_fields()[1].name@);
            let ghost fs = edit_fields();
            assert(spec_index(fs, fs[1].name@, 1) == 1);
            assert(spec_index(fs, fs[1].name@, 0) == 1);
            assert(spec_index(fs, fs[2].name@, 2) == 2);
            assert(spec_index(fs, fs[2].name@, 1) == 2);
            assert(spec_index(fs, fs[2].name@, 0) == 2);
            crate::tools::args::lemma_required_present(*args, edit_fields(), 0);
            crate::tools::args::lemma_required_present(*args, edit_fields(), 1);
            crate::tools::args::lemma_required_present(*args, edit_fields(), 2);
        }
        assert(values@[0] == field_value(*args, edit_fields(), 0));
        assert(values@[1] == field_value(*args, edit_fields(), 1));
        assert(values@[2] == field_value(*args, edit_fields(), 2));
        match (&values[0], &values[1], &values[2]) {
            (
                Some(FieldValue::Text(path)),
                Some(FieldValue::Text(old_text)),
                Some(FieldValue::Text(new_text)),
            ) => Ok(
                EditArgs { path: path.clone(), old_text: old_text.clone(), new_text: new_text.clone() },
            ),
            _ => Err(owned("missing field `path`")),
        }
    }

    /// Checks the arguments.
    pub fn validate(&self, args: &Json) -> (r: Result<(), String>)
        ensures
            match r {
                Ok(()) => edit_validation(*args) is Ok,
                Err(e) => edit_validation(*args) == Err::<(), Seq<char>>(e@),
            },
    {
        let specs = fields();
        match read_fields(args, &specs) {
            Ok(_) => Ok(()),
            Err(e) => Err(e),
        }
    }

    /// Edits change files.
    pub fn effect(&self, _args: &Json) -> (r: ToolEffect)
        ensures
            r == ToolEffect::Mutating,
    {
        ToolEffect::Mutating
    }

    /// Replaces the one occurrence of a non-empty `old_text` in `current`;
    /// any other number of occurrences is refused with `match_count`.
    pub fn replace_once(&self, current: &str, old_text: &str, new_text: &str) -> (r: Result<
        String,
        ToolOutput,
    >)
        requires
            old_text@.len() > 0,
        ensures
            match r {
                Ok(updated) => count_from(current@, old_text@, 0) == 1 && updated@
                    == replace_first(current@, old_text@, new_text@),
                Err(o) => count_from(current@, old_text@, 0) != 1 && is_failure(
                    o,
                    "match_count"@,
                    match_count_message(count_from(current@, old_text@, 0)),
                ),
            },
    {
        let hay = chars_of(current);
        let needle = chars_of(old_text);
        let count = count_occurrences(&hay, &needle);
        if count != 1 {
            let mut msg = owned("old_text must match exactly once; found ");
            push_chars(&mut msg, &decimal_chars(count as u64));
            return Err(ToolOutput::failure("match_count", msg.as_str()));
        }
        proof {
            lemma_first_from(hay@, needle@, 0);
        }
        let p = match find_first(&hay, &needle) {
            Some(p) => p,
            None => {
                return Err(ToolOutput::failure("match_count", "old_text must match exactly once; found 0"));
            },
        };
        assert(occurs_at(hay@, needle@, p as int));
        assert(p + needle@.len() <= hay@.len());
        assert(needle.len() == needle@.len());
        let mut updated = string_of(&slice_vec(&hay, 0, p));
        push_str(&mut updated, new_text);
        assert(p + needle.len() <= hay.len());
        let rest = slice_vec(&hay, p + needle.len(), hay.len());
        push_chars(&mut updated, &rest);
        assert(hay@.subrange(0, p as int) =~= hay@.take(p as int));
        assert(hay@.subrange(p + needle@.len(), hay@.len() as int) =~= hay@.skip(
            p + needle@.len(),
        ));
        Ok(updated)
    }

    /// The first step of an edit with these arguments, where `exists` says
    /// whether the resolved path exists.
    pub fn step(&self, args: &EditArgs, exists: bool) -> (r: EditStep)
        ensures
            r == edit_step(args.old_text@, exists),
    {
        if args.old_text.as_str().unicode_len() == 0 {
            if exists {
                EditStep::AlreadyExists
            } else {
                EditStep::Create
            }
        } else {
            EditStep::Replace
        }
    }

    /// The refusal when the file to create already exists.
    pub fn already_exists(&self) -> (r: ToolOutput)
        ensures
            is_failure(r, "already_exists"@, "old_text may be empty only when creating a new file"@),
    {
        ToolOutput::failure("already_exists", "old_text may be empty only when creating a new file")
    }

    /// The report after creating `path` with `new_text`.
    pub fn created(&self, path: &str, new_text: &str) -> (r: ToolOutput)
        ensures
            utf8_len(new_text@) <= usize::MAX ==> is_success_text(r, created_text(path@, new_text@)),
    {
        let n = utf8_length(&chars_of(new_text));
        let mut b = ObjectBuilder::new();
        b.add("bytes_written", Json::Number(JsonNumber::PosInt(n as u64)));
        b.add("created", Json::Bool(true));
        b.add("path", Json::Str(owned(path)));
        let ghost be = b.entries();
        let d = b.finish();
        proof {
            if utf8_len(new_text@) <= usize::MAX {
                assert(member_texts(be) =~= seq![
                    field_text("bytes_written"@, decimal(utf8_len(new_text@))),
                    field_text("created"@, seq!['t', 'r', 'u', 'e']),
                    field_text("path"@, json_quoted(path@)),
                ]);
            }
        }
        ToolOutput::success(d)
    }

    /// The report after replacing text in `path`.
    pub fn replaced(&self, path: &str, current: &str, updated: &str) -> (r: ToolOutput)
        ensures
            utf8_len(current@) <= usize::MAX && utf8_len(updated@) <= usize::MAX ==> is_success_text(
                r,
                replaced_text(path@, current@, updated@),
            ),
    {
        let old_n = utf8_length(&chars_of(current));
        let new_n = utf8_length(&chars_of(updated));
        let mut b = ObjectBuilder::new();
        b.add("created", Json::Bool(false));
        b.add("new_bytes", Json::Number(JsonNumber::PosInt(new_n as u64)));
        b.add("old_bytes", Json::Number(JsonNumber::PosInt(old_n as u64)));
        b.add("path", Json::Str(owned(path)));
        let ghost be = b.entries();
        let d = b.finish();
        proof {
            if utf8_len(current@) <= usize::MAX && utf8_len(updated@) <= usize::MAX {
                assert(member_texts(be) =~= seq![
                    field_text("created"@, seq!['f', 'a', 'l', 's', 'e']),
                    field_text("new_bytes"@, decimal(utf8_len(updated@))),
                    field_text("old_bytes"@, decimal(utf8_len(current@))),
                    field_text("path"@, json_quoted(path@)),
                ]);
            }
        }
        ToolOutput::success(d)
    }
}

/// A refused edit leaves the current text as it was; a successful one keeps
/// everything before and after the replaced occurrence.
pub proof fn lemma_replace_keeps_surroundings(current: Seq<char>, old: Seq<char>, new: Seq<char>)
    requires
        old.len() > 0,
        count_from(current, old, 0) == 1,
    ensures
        ({
            let p = first_from(current, old, 0);
            &&& 0 <= p && p + old.len() <= current.len()
            &&& current.subrange(p, p + old.len()) == old
            &&& replace_first(current, old, new).take(p) == current.take(p)
            &&& replace_first(current, old, new).subrange(p, p + new.len()) == new
            &&& replace_first(current, old, new).skip(p + new.len()) == current.skip(p + old.len())
        }),
{
    lemma_first_from(current, old, 0);
    let p = first_from(current, old, 0);
    let r = replace_first(current, old, new);
    assert(r.take(p) =~= current.take(p));
    assert(r.subrange(p, p + new.len()) =~= new);
    assert(r.skip(p + new.len()) =~= current.skip(p + old.len()));
}

} // verus!
