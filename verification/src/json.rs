//! JSON values as the crate handles them: tool arguments, tool results and the
//! wire form of chat messages.
//!
//! Parsing and string escaping are serde_json's; the framing of arrays and
//! objects is done here, and `json_text` states the exact text produced.

use serde_json::Value;
use vstd::prelude::*;

use crate::text::{
    chars_of, decimal, decimal_chars, push_chars, push_str, signed_decimal, signed_decimal_chars,
};

verus! {

/// A JSON number, kept the way serde_json keeps it: a non-negative integer,
/// a negative integer, or a floating-point number held as its JSON text.
#[derive(Debug, Clone, PartialEq)]
pub enum JsonNumber {
    PosInt(u64),
    NegInt(i64),
    Float(String),
}

/// A JSON value. Object members keep the order in which they are stored.
#[derive(Debug, PartialEq)]
pub enum Json {
    Null,
    Bool(bool),
    Number(JsonNumber),
    Str(String),
    Array(Vec<Json>),
    Object(Vec<JsonMember>),
}

/// One `"key": value` member of a JSON object.
#[derive(Debug, PartialEq)]
pub struct JsonMember {
    pub key: String,
    pub value: Json,
}

/// The JSON string literal that serde_json writes for `s`: the characters of
/// `s` between double quotes, each escaped as `json_char_escape` says.
#[verifier::opaque]
pub open spec fn json_quoted(s: Seq<char>) -> Seq<char> {
    seq!['"'] + json_escaped(s) + seq!['"']
}

/// The characters of `s`, each escaped for a JSON string literal.
pub open spec fn json_escaped(s: Seq<char>) -> Seq<char>
    decreases s.len(),
{
    if s.len() == 0 {
        Seq::empty()
    } else {
        json_escaped(s.drop_last()) + json_char_escape(s.last())
    }
}

/// The lower-case hexadecimal digit of `d`, for `d < 16`.
pub open spec fn hex_digit(d: u32) -> char {
    seq!['0', '1', '2', '3', '4', '5', '6', '7', '8', '9', 'a', 'b', 'c', 'd', 'e', 'f'][d as int]
}

/// How one character stands in a JSON string literal: a quote and a
/// backslash behind a backslash; backspace, tab, line feed, form feed and
/// carriage return as `\b`, `\t`, `\n`, `\f`, `\r`; any other character
/// below U+0020 as `\u00` and two lower-case hexadecimal digits; every other
/// character as itself.
pub open spec fn json_char_escape(c: char) -> Seq<char> {
    let n = c as u32;
    if c == '"' {
        seq!['\\', '"']
    } else if c == '\\' {
        seq!['\\', '\\']
    } else if n == 8 {
        seq!['\\', 'b']
    } else if n == 9 {
        seq!['\\', 't']
    } else if n == 10 {
        seq!['\\', 'n']
    } else if n == 12 {
        seq!['\\', 'f']
    } else if n == 13 {
        seq!['\\', 'r']
    } else if n < 32 {
        seq!['\\', 'u', '0', '0', hex_digit(n / 16), hex_digit(n % 16)]
    } else {
        seq![c]
    }
}

/// The result of serde_json's `from_str::<Value>` on `text`: the parsed value,
/// or the parser's error message.
pub uninterp spec fn json_parse(text: Seq<char>) -> Result<Json, Seq<char>>;

/// serde_json's `to_string` on a string slice, which cannot fail for a
/// string: the text between double quotes, each character escaped as
/// serde_json's escape table has it (stated by `json_char_escape`).
#[verifier::external_body]
fn quote_str(s: &str) -> (r: String)
    ensures
        r@ == json_quoted(s@),
{
    serde_json::to_string(s).unwrap_or_default()
}

/// serde_json's dynamically typed value, which `parse_json` reads.
#[verifier::external_type_specification]
#[verifier::external_body]
pub struct ExSerdeValue(serde_json::Value);

/// serde_json's `from_str::<Value>` on `text`: the parsed value, or the
/// error's message.
#[verifier::external_body]
fn serde_from_str(text: &str) -> (r: Result<Json, String>)
    ensures
        json_parse(text@) == (match r {
            Ok(v) => Ok::<Json, Seq<char>>(v),
            Err(e) => Err::<Json, Seq<char>>(e@),
        }),
{
    match serde_json::from_str::<Value>(text) {
        Ok(value) => Ok(from_serde_value(value)),
        Err(error) => Err(error.to_string()),
    }
}

/// Parses JSON text; on failure, the error is the parser's message. Objects
/// come back with their members in serde_json's map order.
pub fn parse_json(text: &str) -> (r: Result<Json, String>)
    ensures
        json_parse(text@) == (match r {
            Ok(v) => Ok::<Json, Seq<char>>(v),
            Err(e) => Err::<Json, Seq<char>>(e@),
        }),
{
    serde_from_str(text)
}

/// serde_json's number, which `from_serde_value` reads.
#[verifier::external_type_specification]
#[verifier::external_body]
pub struct ExSerdeNumber(serde_json::Number);

/// Moves serde_json's number into `JsonNumber`: its unsigned or signed
/// integer form when it has one (`as_u64`, `as_i64`), otherwise its float
/// text as serde_json prints it. Only `from_serde_value` calls it.
#[verifier::external_body]
fn from_serde_number(n: serde_json::Number) -> JsonNumber {
    match (n.as_u64(), n.as_i64()) {
        (Some(u), _) => JsonNumber::PosInt(u),
        (None, Some(i)) => JsonNumber::NegInt(i),
        (None, None) => JsonNumber::Float(n.to_string()),
    }
}

/// Moves serde_json's value into `Json`, variant for variant; object members
/// keep the map's order. Only `serde_from_str` calls it.
#[verifier::external_body]
fn from_serde_value(value: Value) -> Json {
    match value {
        Value::Null => Json::Null,
        Value::Bool(b) => Json::Bool(b),
        Value::Number(n) => Json::Number(from_serde_number(n)),
        Value::String(s) => Json::Str(s),
        Value::Array(items) => Json::Array(items.into_iter().map(from_serde_value).collect()),
        Value::Object(map) => Json::Object(
            map.into_iter().map(|(key, v)| JsonMember { key, value: from_serde_value(v) }).collect(),
        ),
    }
}

/// The text of a JSON number.
pub open spec fn number_text(n: JsonNumber) -> Seq<char> {
    match n {
        JsonNumber::PosInt(u) => decimal(u as nat),
        JsonNumber::NegInt(i) => signed_decimal(i as int),
        JsonNumber::Float(t) => t@,
    }
}

/// The compact JSON text of a value (no whitespace between tokens).
pub open spec fn json_text(j: Json) -> Seq<char>
    decreases j, 0int,
{
    match j {
        Json::Null => seq!['n', 'u', 'l', 'l'],
        Json::Bool(b) => if b {
            seq!['t', 'r', 'u', 'e']
        } else {
            seq!['f', 'a', 'l', 's', 'e']
        },
        Json::Number(n) => number_text(n),
        Json::Str(s) => json_quoted(s@),
        Json::Array(items) => seq!['['] + items_text(items@, items@.len() as int) + seq![']'],
        Json::Object(members) => seq!['{'] + members_text(members@, members@.len() as int) + seq![
            '}',
        ],
    }
}

/// The comma-separated texts of the first `n` items.
pub open spec fn items_text(items: Seq<Json>, n: int) -> Seq<char>
    decreases items, n,
{
    if n <= 0 || n > items.len() {
        Seq::empty()
    } else if n == 1 {
        json_text(items[0])
    } else {
        items_text(items, n - 1) + seq![','] + json_text(items[n - 1])
    }
}

/// The comma-separated `"key":value` texts of the first `n` members.
pub open spec fn members_text(members: Seq<JsonMember>, n: int) -> Seq<char>
    decreases members, n,
{
    if n <= 0 || n > members.len() {
        Seq::empty()
    } else if n == 1 {
        member_text(members[0])
    } else {
        members_text(members, n - 1) + seq![','] + member_text(members[n - 1])
    }
}

/// The text of one object member.
pub open spec fn member_text(m: JsonMember) -> Seq<char>
    decreases m, 1int,
{
    json_quoted(m.key@) + seq![':'] + json_text(m.value)
}

} // verus!

verus! {

/// Appends the text of a JSON number.
fn write_number(n: &JsonNumber, out: &mut String)
    ensures
        final(out)@ == old(out)@ + number_text(*n),
{
    match n {
        JsonNumber::PosInt(u) => {
            let d = decimal_chars(*u);
            push_chars(out, &d);
        },
        JsonNumber::NegInt(i) => {
            let d = signed_decimal_chars(*i);
            push_chars(out, &d);
        },
        JsonNumber::Float(t) => {
            push_str(out, t.as_str());
        },
    }
}

/// Appends the compact JSON text of `j` to `out`.
#[verifier::loop_isolation(false)]
pub fn write_json(j: &Json, out: &mut String)
    ensures
        final(out)@ == old(out)@ + json_text(*j),
    decreases j,
{
    let ghost start = out@;
    match j {
        Json::Null => {
            push_chars(out, &['n', 'u', 'l', 'l']);
        },
        Json::Bool(b) => {
            if *b {
                push_chars(out, &['t', 'r', 'u', 'e']);
            } else {
                push_chars(out, &['f', 'a', 'l', 's', 'e']);
            }
        },
        Json::Number(n) => {
            write_number(n, out);
        },
        Json::Str(s) => {
            let q = quote_str(s.as_str());
            push_str(out, q.as_str());
        },
        Json::Array(items) => {
            crate::text::push_char(out, '[');
            let mut i: usize = 0;
            while i < items.len()
                invariant
                    i <= items.len(),
                    out@ == start + seq!['['] + items_text(items@, i as int),
                decreases items.len() - i,
            {
                let ghost before = out@;
                if i > 0 {
                    crate::text::push_char(out, ',');
                }
                proof {
                    assert(decreases_to!(*j => j->Array_0));
                    assert(decreases_to!(*items => items@));
                    assert(decreases_to!(items@ => items@[i as int]));
                }
                write_json(&items[i], out);
                proof {
                    if i == 0 {
                        assert(out@ =~= start + seq!['['] + items_text(items@, 1));
                    } else {
                        assert(out@ =~= start + seq!['['] + items_text(items@, i + 1));
                    }
                }
                i = i + 1;
            }
            crate::text::push_char(out, ']');
            assert(out@ =~= start + json_text(*j));
        },
        Json::Object(members) => {
            crate::text::push_char(out, '{');
            let mut i: usize = 0;
            while i < members.len()
                invariant
                    i <= members.len(),
                    out@ == start + seq!['{'] + members_text(members@, i as int),
                decreases members.len() - i,
            {
                if i > 0 {
                    crate::text::push_char(out, ',');
                }
                let m = &members[i];
                let q = quote_str(m.key.as_str());
                push_str(out, q.as_str());
                crate::text::push_char(out, ':');
                let ghost mid = out@;
                proof {
                    assert(decreases_to!(*j => j->Object_0));
                    assert(decreases_to!(*members => members@));
                    assert(decreases_to!(members@ => members@[i as int]));
                    assert(decreases_to!(members@[i as int] => members@[i as int].value));
                }
                write_json(&m.value, out);
                assert(out@ == mid + json_text(members@[i as int].value));
                assert(member_text(members@[i as int]) == json_quoted(members@[i as int].key@)
                    + seq![':'] + json_text(members@[i as int].value));
                proof {
                    if i == 0 {
                        assert(out@ =~= start + seq!['{'] + members_text(members@, 1));
                    } else {
                        assert(out@ =~= start + seq!['{'] + members_text(members@, i + 1));
                    }
                }
                i = i + 1;
            }
            crate::text::push_char(out, '}');
            assert(out@ =~= start + json_text(*j));
        },
    }
}

/// The compact JSON text of `j`.
pub fn to_json_string(j: &Json) -> (r: String)
    ensures
        r@ == json_text(*j),
{
    let mut out = String::new();
    write_json(j, &mut out);
    assert(out@ =~= json_text(*j));
    out
}

impl Json {
    /// A JSON string value.
    pub fn string(s: &str) -> (r: Json)
        ensures
            r matches Json::Str(t) && t@ == s@,
    {
        Json::Str(crate::text::string_of(&chars_of(s)))
    }
}

/// `"key": value` as an object member.
pub fn member(key: &str, value: Json) -> (r: JsonMember)
    ensures
        r.key@ == key@,
        r.value == value,
{
    JsonMember { key: crate::text::string_of(&chars_of(key)), value }
}

} // verus!

verus! {

/// The index of the first member whose key is `key`, searching from `i`,
/// or `-1` when there is none.
pub open spec fn key_index(members: Seq<JsonMember>, key: Seq<char>, i: int) -> int
    decreases members.len() - i,
{
    if i < 0 || i >= members.len() {
        -1
    } else if members[i].key@ == key {
        i
    } else {
        key_index(members, key, i + 1)
    }
}

pub proof fn lemma_key_index(members: Seq<JsonMember>, key: Seq<char>, i: int)
    requires
        0 <= i,
    ensures
        key_index(members, key, i) == -1 || (i <= key_index(members, key, i) < members.len()
            && members[key_index(members, key, i)].key@ == key),
        key_index(members, key, i) == -1 ==> forall|k: int|
            i <= k < members.len() ==> #[trigger] members[k].key@ != key,
    decreases members.len() - i,
{
    if i < members.len() && members[i].key@ != key {
        lemma_key_index(members, key, i + 1);
    }
}

/// The value of the first member of `ms` whose key is `key`, if any.
pub open spec fn lookup(ms: Seq<JsonMember>, key: Seq<char>) -> Option<Json> {
    let k = key_index(ms, key, 0);
    if k >= 0 {
        Some(ms[k].value)
    } else {
        None
    }
}

/// Appending a member leaves the first occurrences of keys in place.
pub proof fn lemma_key_index_push(ms: Seq<JsonMember>, m: JsonMember, key: Seq<char>, s: int)
    requires
        0 <= s <= ms.len(),
    ensures
        key_index(ms.push(m), key, s) == if key_index(ms, key, s) >= 0 {
            key_index(ms, key, s)
        } else if m.key@ == key {
            ms.len() as int
        } else {
            -1
        },
    decreases ms.len() - s,
{
    if s < ms.len() {
        assert(ms.push(m)[s] == ms[s]);
        if ms[s].key@ != key {
            lemma_key_index_push(ms, m, key, s + 1);
        }
    } else {
        assert(ms.push(m)[s] == m);
        assert(key_index(ms.push(m), key, s + 1) == -1);
    }
}

/// What a lookup finds after a member was appended: the earlier member
/// under the key, or else the new one when it has the key.
pub proof fn lemma_lookup_push(ms: Seq<JsonMember>, m: JsonMember, key: Seq<char>)
    ensures
        lookup(ms.push(m), key) == if lookup(ms, key) is Some {
            lookup(ms, key)
        } else if m.key@ == key {
            Some(m.value)
        } else {
            None::<Json>
        },
{
    lemma_key_index_push(ms, m, key, 0);
    lemma_key_index(ms, key, 0);
    if key_index(ms, key, 0) >= 0 {
        assert(ms.push(m)[key_index(ms, key, 0)] == ms[key_index(ms, key, 0)]);
    }
}

/// The value stored under `key` in an object value, if any.
pub open spec fn member_value(j: Json, key: Seq<char>) -> Option<Json> {
    match j {
        Json::Object(ms) => {
            let k = key_index(ms@, key, 0);
            if k >= 0 {
                Some(ms@[k].value)
            } else {
                None
            }
        },
        _ => None,
    }
}

/// The index of the member stored under `key` (executable).
pub fn find_key(members: &Vec<JsonMember>, key: &[char]) -> (r: Option<usize>)
    ensures
        match r {
            Some(k) => k as int == key_index(members@, key@, 0),
            None => key_index(members@, key@, 0) == -1,
        },
{
    let mut i: usize = 0;
    while i < members.len()
        invariant
            i <= members.len(),
            key_index(members@, key@, 0) == key_index(members@, key@, i as int),
        decreases members.len() - i,
    {
        let k = crate::text::chars_of(members[i].key.as_str());
        if crate::text::chars_eq(&k, key) {
            return Some(i);
        }
        i = i + 1;
    }
    None
}

/// The value stored under `key` in an object value, if any (executable).
pub fn get_member<'a>(j: &'a Json, key: &str) -> (r: Option<&'a Json>)
    ensures
        match r {
            Some(v) => member_value(*j, key@) == Some(*v),
            None => member_value(*j, key@) is None,
        },
{
    match j {
        Json::Object(ms) => {
            let k = crate::text::chars_of(key);
            match find_key(ms, &k) {
                Some(i) => {
                    proof {
                        lemma_key_index(ms@, key@, 0);
                    }
                    Some(&ms[i].value)
                },
                None => None,
            }
        },
        _ => None,
    }
}

} // verus!

verus! {

/// The texts `parts` separated by commas.
pub open spec fn join_commas(parts: Seq<Seq<char>>) -> Seq<char>
    decreases parts.len(),
{
    if parts.len() == 0 {
        Seq::empty()
    } else if parts.len() == 1 {
        parts[0]
    } else {
        join_commas(parts.drop_last()) + seq![','] + parts.last()
    }
}

/// The text of an object whose members have the texts `parts`.
pub open spec fn object_text(parts: Seq<Seq<char>>) -> Seq<char> {
    seq!['{'] + join_commas(parts) + seq!['}']
}

/// The text of an array whose items have the texts `parts`.
pub open spec fn array_text(parts: Seq<Seq<char>>) -> Seq<char> {
    seq!['['] + join_commas(parts) + seq![']']
}

/// The text of the member `"key":value` where `value` has the text `value_text`.
pub open spec fn field_text(key: Seq<char>, value_text: Seq<char>) -> Seq<char> {
    json_quoted(key) + seq![':'] + value_text
}

/// The member texts of `members`.
pub open spec fn member_texts(members: Seq<JsonMember>) -> Seq<Seq<char>> {
    members.map_values(|m: JsonMember| member_text(m))
}

/// The item texts of `items`.
pub open spec fn item_texts(items: Seq<Json>) -> Seq<Seq<char>> {
    items.map_values(|j: Json| json_text(j))
}

pub proof fn lemma_members_text(members: Seq<JsonMember>, n: int)
    requires
        0 <= n <= members.len(),
    ensures
        members_text(members, n) == join_commas(member_texts(members.take(n))),
    decreases n,
{
    if n > 1 {
        lemma_members_text(members, n - 1);
        assert(member_texts(members.take(n)).drop_last() =~= member_texts(members.take(n - 1)));
    } else if n == 1 {
        assert(member_texts(members.take(n)) =~= seq![member_text(members[0])]);
    } else {
        assert(member_texts(members.take(n)) =~= Seq::<Seq<char>>::empty());
    }
}

pub proof fn lemma_items_text(items: Seq<Json>, n: int)
    requires
        0 <= n <= items.len(),
    ensures
        items_text(items, n) == join_commas(item_texts(items.take(n))),
    decreases n,
{
    if n > 1 {
        lemma_items_text(items, n - 1);
        assert(item_texts(items.take(n)).drop_last() =~= item_texts(items.take(n - 1)));
    } else if n == 1 {
        assert(item_texts(items.take(n)) =~= seq![json_text(items[0])]);
    } else {
        assert(item_texts(items.take(n)) =~= Seq::<Seq<char>>::empty());
    }
}

/// The text of an object value is the object framing of its member texts.
pub proof fn lemma_object_text(members: Vec<JsonMember>)
    ensures
        json_text(Json::Object(members)) == object_text(member_texts(members@)),
{
    lemma_members_text(members@, members@.len() as int);
    assert(members@.take(members@.len() as int) =~= members@);
}

/// The text of an array value is the array framing of its item texts.
pub proof fn lemma_array_text(items: Vec<Json>)
    ensures
        json_text(Json::Array(items)) == array_text(item_texts(items@)),
{
    lemma_items_text(items@, items@.len() as int);
    assert(items@.take(items@.len() as int) =~= items@);
}

/// Builds an object value one member at a time.
pub struct ObjectBuilder {
    members: Vec<JsonMember>,
}

impl ObjectBuilder {
    /// The members added so far.
    pub closed spec fn entries(&self) -> Seq<JsonMember> {
        self.members@
    }

    /// An empty object.
    pub fn new() -> (b: ObjectBuilder)
        ensures
            b.entries() == Seq::<JsonMember>::empty(),
            forall|k: Seq<char>| #[trigger] lookup(b.entries(), k) is None,
    {
        ObjectBuilder { members: Vec::new() }
    }

    /// Adds the member `"key": value` after those already added.
    pub fn add(&mut self, key: &str, value: Json)
        ensures
            final(self).entries().len() == old(self).entries().len() + 1,
            final(self).entries().drop_last() == old(self).entries(),
            final(self).entries().last().key@ == key@,
            final(self).entries().last().value == value,
            forall|k: Seq<char>|
                #[trigger] lookup(final(self).entries(), k) == if lookup(old(self).entries(), k) is Some {
                    lookup(old(self).entries(), k)
                } else if k == key@ {
                    Some(value)
                } else {
                    None::<Json>
                },
    {
        let ghost before = self.members@;
        let m = member(key, value);
        let ghost gm = m;
        self.members.push(m);
        assert(self.members@ =~= before.push(gm));
        assert forall|k: Seq<char>|
            #[trigger] lookup(self.members@, k) == if lookup(before, k) is Some {
                lookup(before, k)
            } else if k == key@ {
                Some(value)
            } else {
                None::<Json>
            } by {
            lemma_lookup_push(before, gm, k);
        }
        assert(self.members@.drop_last() =~= old(self).members@);
    }

    /// The object value.
    pub fn finish(self) -> (j: Json)
        ensures
            j matches Json::Object(ms) && ms@ == self.entries(),
            json_text(j) == object_text(member_texts(self.entries())),
    {
        proof {
            lemma_object_text(self.members);
        }
        Json::Object(self.members)
    }
}


} // verus!
