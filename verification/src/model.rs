//! The chat protocol's data: messages, tool calls, requests, responses and
//! tool outputs, with their JSON wire forms.

use vstd::prelude::*;

use crate::json::{
    array_text, field_text, get_member, item_texts, json_quoted, json_text, key_index, lemma_array_text, lookup,
    member_texts, member_value, object_text, to_json_string, Json, JsonMember, JsonNumber,
    ObjectBuilder,
};
use crate::text::{chars_of, string_of};

verus! {

// ---------------------------------------------------------------------------
// Small string helpers
// ---------------------------------------------------------------------------

/// A fresh copy of a string slice.
pub fn owned(s: &str) -> (r: String)
    ensures
        r@ == s@,
{
    string_of(&chars_of(s))
}

/// The view of an optional string.
pub open spec fn opt_view(o: Option<String>) -> Option<Seq<char>> {
    match o {
        Some(s) => Some(s@),
        None => None,
    }
}

/// A copy of an optional string.
pub fn copy_opt(o: &Option<String>) -> (r: Option<String>)
    ensures
        opt_view(r) == opt_view(*o),
{
    match o {
        Some(s) => Some(s.clone()),
        None => None,
    }
}

// ---------------------------------------------------------------------------
// Sessions
// ---------------------------------------------------------------------------

/// Identifies one conversation of one user.
#[derive(Debug, Clone, PartialEq, Eq, Hash)]
pub struct SessionKey {
    pub user_id: String,
    pub session_id: String,
}

impl SessionKey {
    /// The key of session `session_id` of user `user_id`.
    pub fn new(user_id: &str, session_id: &str) -> (k: SessionKey)
        ensures
            k.user_id@ == user_id@,
            k.session_id@ == session_id@,
    {
        SessionKey { user_id: owned(user_id), session_id: owned(session_id) }
    }

    /// A copy of this key.
    pub fn copy(&self) -> (k: SessionKey)
        ensures
            k.user_id@ == self.user_id@,
            k.session_id@ == self.session_id@,
    {
        SessionKey { user_id: self.user_id.clone(), session_id: self.session_id.clone() }
    }
}

// ---------------------------------------------------------------------------
// Messages
// ---------------------------------------------------------------------------

/// The function that a tool call names, with its JSON-encoded arguments.
#[derive(Debug, Clone, PartialEq)]
pub struct FunctionCall {
    pub name: String,
    pub arguments: String,
}

/// One tool call requested by the model.
#[derive(Debug, Clone, PartialEq)]
pub struct ToolCall {
    pub id: String,
    pub kind: String,
    pub function: FunctionCall,
}

/// The abstract content of a tool call.
pub struct ToolCallView {
    pub id: Seq<char>,
    pub kind: Seq<char>,
    pub name: Seq<char>,
    pub arguments: Seq<char>,
}

impl View for ToolCall {
    type V = ToolCallView;

    open spec fn view(&self) -> ToolCallView {
        ToolCallView {
            id: self.id@,
            kind: self.kind@,
            name: self.function.name@,
            arguments: self.function.arguments@,
        }
    }
}

/// One message of a conversation.
#[derive(Debug, Clone, PartialEq)]
pub struct ChatMessage {
    pub role: String,
    pub content: Option<String>,
    pub reasoning_content: Option<String>,
    pub tool_calls: Option<Vec<ToolCall>>,
    pub tool_call_id: Option<String>,
}

/// The abstract content of a message.
pub struct ChatMessageView {
    pub role: Seq<char>,
    pub content: Option<Seq<char>>,
    pub reasoning_content: Option<Seq<char>>,
    pub tool_calls: Option<Seq<ToolCallView>>,
    pub tool_call_id: Option<Seq<char>>,
}

/// The views of a sequence of tool calls.
pub open spec fn calls_view(calls: Seq<ToolCall>) -> Seq<ToolCallView> {
    calls.map_values(|c: ToolCall| c@)
}

impl View for ChatMessage {
    type V = ChatMessageView;

    open spec fn view(&self) -> ChatMessageView {
        ChatMessageView {
            role: self.role@,
            content: opt_view(self.content),
            reasoning_content: opt_view(self.reasoning_content),
            tool_calls: match self.tool_calls {
                Some(calls) => Some(calls_view(calls@)),
                None => None,
            },
            tool_call_id: opt_view(self.tool_call_id),
        }
    }
}

impl ToolCall {
    /// A copy of this call.
    pub fn copy(&self) -> (r: ToolCall)
        ensures
            r@ == self@,
    {
        ToolCall {
            id: self.id.clone(),
            kind: self.kind.clone(),
            function: FunctionCall {
                name: self.function.name.clone(),
                arguments: self.function.arguments.clone(),
            },
        }
    }
}

/// A copy of a sequence of tool calls.
pub fn copy_calls(calls: &Vec<ToolCall>) -> (r: Vec<ToolCall>)
    ensures
        calls_view(r@) == calls_view(calls@),
{
    let mut r: Vec<ToolCall> = Vec::new();
    let mut i: usize = 0;
    while i < calls.len()
        invariant
            i <= calls.len(),
            r@.len() == i,
            forall|k: int| 0 <= k < i ==> (#[trigger] r@[k])@ == calls@[k]@,
        decreases calls.len() - i,
    {
        r.push(calls[i].copy());
        i = i + 1;
    }
    assert(calls_view(r@) =~= calls_view(calls@));
    r
}

impl ChatMessage {
    /// A message with the given role and text content and nothing else.
    pub fn with_content(role: &str, content: &str) -> (m: ChatMessage)
        ensures
            m@.role == role@,
            m@.content == Some(content@),
            m@.reasoning_content is None,
            m@.tool_calls is None,
            m@.tool_call_id is None,
    {
        ChatMessage {
            role: owned(role),
            content: Some(owned(content)),
            reasoning_content: None,
            tool_calls: None,
            tool_call_id: None,
        }
    }

    /// A system message.
    pub fn system(content: &str) -> (m: ChatMessage)
        ensures
            m@.role == "system"@,
            m@.content == Some(content@),
            m@.reasoning_content is None,
            m@.tool_calls is None,
            m@.tool_call_id is None,
    {
        ChatMessage::with_content("system", content)
    }

    /// A user message.
    pub fn user(content: &str) -> (m: ChatMessage)
        ensures
            m@.role == "user"@,
            m@.content == Some(content@),
            m@.reasoning_content is None,
            m@.tool_calls is None,
            m@.tool_call_id is None,
    {
        ChatMessage::with_content("user", content)
    }

    /// An assistant message with a final answer.
    pub fn assistant(content: &str) -> (m: ChatMessage)
        ensures
            m@.role == "assistant"@,
            m@.content == Some(content@),
            m@.reasoning_content is None,
            m@.tool_calls is None,
            m@.tool_call_id is None,
    {
        ChatMessage::with_content("assistant", content)
    }

    /// The result of the tool call `call_id`.
    pub fn tool(call_id: &str, content: &str) -> (m: ChatMessage)
        ensures
            m@.role == "tool"@,
            m@.content == Some(content@),
            m@.reasoning_content is None,
            m@.tool_calls is None,
            m@.tool_call_id == Some(call_id@),
    {
        ChatMessage {
            role: owned("tool"),
            content: Some(owned(content)),
            reasoning_content: None,
            tool_calls: None,
            tool_call_id: Some(owned(call_id)),
        }
    }

    /// A copy of this message.
    pub fn copy(&self) -> (m: ChatMessage)
        ensures
            m@ == self@,
    {
        ChatMessage {
            role: self.role.clone(),
            content: copy_opt(&self.content),
            reasoning_content: copy_opt(&self.reasoning_content),
            tool_calls: match &self.tool_calls {
                Some(calls) => Some(copy_calls(calls)),
                None => None,
            },
            tool_call_id: copy_opt(&self.tool_call_id),
        }
    }
}

// ---------------------------------------------------------------------------
// Wire form of messages
// ---------------------------------------------------------------------------

/// The member text for an optional string field: nothing when absent.
pub open spec fn opt_field(key: Seq<char>, value: Option<Seq<char>>) -> Seq<Seq<char>> {
    match value {
        Some(v) => seq![field_text(key, json_quoted(v))],
        None => Seq::empty(),
    }
}

/// The wire text of a tool call:
/// `{"id":..,"type":..,"function":{"name":..,"arguments":..}}`.
pub open spec fn tool_call_text(c: ToolCallView) -> Seq<char> {
    object_text(
        seq![
            field_text("id"@, json_quoted(c.id)),
            field_text("type"@, json_quoted(c.kind)),
            field_text(
                "function"@,
                object_text(
                    seq![
                        field_text("name"@, json_quoted(c.name)),
                        field_text("arguments"@, json_quoted(c.arguments)),
                    ],
                ),
            ),
        ],
    )
}

/// The member texts of a message: `role`, then each present optional field in
/// the order `content`, `reasoning_content`, `tool_calls`, `tool_call_id`.
pub open spec fn message_parts(m: ChatMessageView) -> Seq<Seq<char>> {
    seq![field_text("role"@, json_quoted(m.role))] + opt_field("content"@, m.content) + opt_field(
        "reasoning_content"@,
        m.reasoning_content,
    ) + match m.tool_calls {
        Some(calls) => seq![
            field_text("tool_calls"@, array_text(calls.map_values(|c| tool_call_text(c)))),
        ],
        None => Seq::empty(),
    } + opt_field("tool_call_id"@, m.tool_call_id)
}

/// The wire text of a message.
pub open spec fn message_text(m: ChatMessageView) -> Seq<char> {
    object_text(message_parts(m))
}

/// A JSON string holding a copy of `s`.
fn json_str(s: &String) -> (r: Json)
    ensures
        json_text(r) == json_quoted(s@),
        r == Json::Str(*s),
{
    Json::Str(s.clone())
}

/// Adds `"key": "value"` when `value` is present.
fn add_opt(b: &mut ObjectBuilder, key: &str, value: &Option<String>)
    ensures
        member_texts(final(b).entries()) == member_texts(old(b).entries()) + opt_field(
            key@,
            opt_view(*value),
        ),
        forall|k: Seq<char>|
            #[trigger] lookup(final(b).entries(), k) == if lookup(old(b).entries(), k) is Some {
                lookup(old(b).entries(), k)
            } else if k == key@ && value is Some {
                Some(Json::Str(value->0))
            } else {
                None::<Json>
            },
{
    let ghost before = b.entries();
    match value {
        Some(v) => {
            b.add(key, json_str(v));
            assert(member_texts(b.entries()) =~= member_texts(before) + opt_field(
                key@,
                opt_view(*value),
            ));
        },
        None => {
            assert(member_texts(b.entries()) =~= member_texts(before) + opt_field(
                key@,
                opt_view(*value),
            ));
        },
    }
}

impl ToolCall {
    /// The wire form of this call.
    pub fn to_json(&self) -> (j: Json)
        ensures
            json_text(j) == tool_call_text(self@),
            tool_call_of_json(j) == Some(self@),
    {
        let mut f = ObjectBuilder::new();
        f.add("name", json_str(&self.function.name));
        let ghost f1 = f.entries();
        f.add("arguments", json_str(&self.function.arguments));
        let ghost fe = f.entries();
        let fj = f.finish();
        assert(member_texts(fe) =~= seq![
            field_text("name"@, json_quoted(self@.name)),
            field_text("arguments"@, json_quoted(self@.arguments)),
        ]);
        let mut b = ObjectBuilder::new();
        b.add("id", json_str(&self.id));
        let ghost b1 = b.entries();
        b.add("type", json_str(&self.kind));
        let ghost b2 = b.entries();
        b.add("function", fj);
        let ghost be = b.entries();
        let j = b.finish();
        assert(member_texts(be) =~= seq![
            field_text("id"@, json_quoted(self@.id)),
            field_text("type"@, json_quoted(self@.kind)),
            field_text(
                "function"@,
                object_text(
                    seq![
                        field_text("name"@, json_quoted(self@.name)),
                        field_text("arguments"@, json_quoted(self@.arguments)),
                    ],
                ),
            ),
        ]);
        proof {
            reveal_strlit("id");
            reveal_strlit("type");
            reveal_strlit("function");
            reveal_strlit("name");
            reveal_strlit("arguments");
            reveal_with_fuel(key_index, 4);
            assert(fe[0] == f1[0]);
            assert(be[0] == b2[0] && b2[0] == b1[0] && be[1] == b2[1]);
            assert(f1.len() == 1);
            assert(f1[0].key@ == "name"@);
            assert("name"@.len() == 4);
            assert("arguments"@.len() == 9);
            assert(fe[0].key@ != "arguments"@);
            assert(b1.len() == 1 && b2.len() == 2);
            assert(b1[0].key@ == "id"@ && b2[1].key@ == "type"@);
            assert("id"@.len() == 2 && "type"@.len() == 4 && "function"@.len() == 8);
            assert(be[0].key@ != "type"@ && be[0].key@ != "function"@ && be[1].key@ != "function"@);
        }
        j
    }
}

/// The wire form of a list of tool calls.
fn calls_to_json(calls: &Vec<ToolCall>) -> (j: Json)
    ensures
        json_text(j) == array_text(calls_view(calls@).map_values(|c| tool_call_text(c))),
        j matches Json::Array(items) && tool_calls_of_items(items@) == Some(calls_view(calls@)),
{
    let mut items: Vec<Json> = Vec::new();
    let mut i: usize = 0;
    while i < calls.len()
        invariant
            i <= calls.len(),
            items@.len() == i,
            forall|k: int|
                0 <= k < i ==> json_text(#[trigger] items@[k]) == tool_call_text(calls@[k]@),
            forall|k: int| 0 <= k < i ==> tool_call_of_json(#[trigger] items@[k]) == Some(calls@[k]@),
        decreases calls.len() - i,
    {
        items.push(calls[i].to_json());
        i = i + 1;
    }
    assert(item_texts(items@) =~= calls_view(calls@).map_values(|c| tool_call_text(c)));
    assert forall|k: int| 0 <= k < items@.len() implies (#[trigger] tool_call_of_json(items@[k])) is Some by {
        assert(tool_call_of_json(items@[k]) == Some(calls@[k]@));
    }
    assert(items@.map_values(|j: Json| tool_call_of_json(j)->0) =~= calls_view(calls@));
    proof {
        lemma_array_text(items);
    }
    Json::Array(items)
}

impl ChatMessage {
    /// The wire form of this message.
    pub fn to_json(&self) -> (j: Json)
        ensures
            json_text(j) == message_text(self@),
            message_of_json(j) == Some(self@),
    {
        let mut b = ObjectBuilder::new();
        b.add("role", json_str(&self.role));
        let ghost p0 = member_texts(b.entries());
        assert(p0 =~= seq![field_text("role"@, json_quoted(self@.role))]);
        proof {
            reveal_strlit("role");
            reveal_strlit("content");
            reveal_strlit("reasoning_content");
            reveal_strlit("tool_calls");
            reveal_strlit("tool_call_id");
        }
        assert("role"@.len() == 4 && "content"@.len() == 7 && "reasoning_content"@.len() == 17
            && "tool_calls"@.len() == 10 && "tool_call_id"@.len() == 12);
        add_opt(&mut b, "content", &self.content);
        let ghost e1 = b.entries();
        assert(lookup(e1, "content"@) == match self.content {
            Some(c) => Some(Json::Str(c)),
            None => None::<Json>,
        });
        add_opt(&mut b, "reasoning_content", &self.reasoning_content);
        let ghost e2 = b.entries();
        assert(lookup(e2, "content"@) == lookup(e1, "content"@));
        assert(lookup(e2, "reasoning_content"@) == match self.reasoning_content {
            Some(c) => Some(Json::Str(c)),
            None => None::<Json>,
        });
        let ghost p2 = member_texts(b.entries());
        match &self.tool_calls {
            Some(calls) => {
                b.add("tool_calls", calls_to_json(calls));
                assert(member_texts(b.entries()) =~= p2 + seq![
                    field_text(
                        "tool_calls"@,
                        array_text(calls_view(calls@).map_values(|c| tool_call_text(c))),
                    ),
                ]);
            },
            None => {
                assert(member_texts(b.entries()) =~= p2 + Seq::<Seq<char>>::empty());
            },
        }
        let ghost e3 = b.entries();
        assert(lookup(e3, "content"@) == lookup(e1, "content"@));
        assert(lookup(e3, "reasoning_content"@) == lookup(e2, "reasoning_content"@));
        add_opt(&mut b, "tool_call_id", &self.tool_call_id);
        let ghost pe = b.entries();
        assert(lookup(pe, "content"@) == lookup(e1, "content"@));
        assert(lookup(pe, "reasoning_content"@) == lookup(e2, "reasoning_content"@));
        let j = b.finish();
        assert(member_texts(pe) =~= message_parts(self@));
        proof {
            assert(lookup(pe, "role"@) == Some(Json::Str(self.role)));
            assert(lookup(pe, "content"@) == match self.content {
                Some(c) => Some(Json::Str(c)),
                None => None::<Json>,
            });
            assert(lookup(pe, "reasoning_content"@) == match self.reasoning_content {
                Some(c) => Some(Json::Str(c)),
                None => None::<Json>,
            });
            assert(lookup(pe, "tool_call_id"@) == match self.tool_call_id {
                Some(c) => Some(Json::Str(c)),
                None => None::<Json>,
            });
            assert(self.tool_calls is None ==> lookup(pe, "tool_calls"@) is None);
        }
        j
    }

    /// The wire text of this message.
    pub fn to_json_text(&self) -> (s: String)
        ensures
            s@ == message_text(self@),
    {
        let j = self.to_json();
        to_json_string(&j)
    }
}

// ---------------------------------------------------------------------------
// Reading messages back from JSON
// ---------------------------------------------------------------------------

/// An optional string member: absent or `null` gives `Some(None)`, a string
/// gives `Some(Some(s))`, any other value makes the object malformed (`None`).
pub open spec fn opt_string_member(j: Json, key: Seq<char>) -> Option<Option<Seq<char>>> {
    match member_value(j, key) {
        None => Some(None),
        Some(Json::Null) => Some(None),
        Some(Json::Str(s)) => Some(Some(s@)),
        Some(_) => None,
    }
}

/// A required string member.
pub open spec fn string_member(j: Json, key: Seq<char>) -> Option<Seq<char>> {
    match member_value(j, key) {
        Some(Json::Str(s)) => Some(s@),
        _ => None,
    }
}

/// Reads an optional string member.
fn read_opt_string(j: &Json, key: &str) -> (r: Option<Option<String>>)
    ensures
        match r {
            Some(v) => opt_string_member(*j, key@) == Some(opt_view(v)),
            None => opt_string_member(*j, key@) is None,
        },
{
    match get_member(j, key) {
        None => Some(None),
        Some(Json::Null) => Some(None),
        Some(Json::Str(s)) => Some(Some(s.clone())),
        Some(_) => None,
    }
}

/// Reads a required string member.
fn read_string(j: &Json, key: &str) -> (r: Option<String>)
    ensures
        match r {
            Some(v) => string_member(*j, key@) == Some(v@),
            None => string_member(*j, key@) is None,
        },
{
    match get_member(j, key) {
        Some(Json::Str(s)) => Some(s.clone()),
        _ => None,
    }
}

/// The tool call that a JSON value describes, if it is well formed.
pub open spec fn tool_call_of_json(j: Json) -> Option<ToolCallView> {
    match (string_member(j, "id"@), string_member(j, "type"@), member_value(j, "function"@)) {
        (Some(id), Some(kind), Some(f)) => match (
            string_member(f, "name"@),
            string_member(f, "arguments"@),
        ) {
            (Some(name), Some(arguments)) => Some(
                ToolCallView { id, kind, name, arguments },
            ),
            _ => None,
        },
        _ => None,
    }
}

/// The tool calls that a JSON array describes, if every item is well formed.
pub open spec fn tool_calls_of_items(items: Seq<Json>) -> Option<Seq<ToolCallView>> {
    if forall|i: int| 0 <= i < items.len() ==> (#[trigger] tool_call_of_json(items[i])) is Some {
        Some(items.map_values(|j: Json| tool_call_of_json(j)->0))
    } else {
        None
    }
}

/// The message that a JSON value describes, if it is well formed.
pub open spec fn message_of_json(j: Json) -> Option<ChatMessageView> {
    match (
        string_member(j, "role"@),
        opt_string_member(j, "content"@),
        opt_string_member(j, "reasoning_content"@),
        opt_string_member(j, "tool_call_id"@),
    ) {
        (Some(role), Some(content), Some(reasoning_content), Some(tool_call_id)) => {
            let calls = match member_value(j, "tool_calls"@) {
                None => Some(None),
                Some(Json::Null) => Some(None),
                Some(Json::Array(items)) => match tool_calls_of_items(items@) {
                    Some(cs) => Some(Some(cs)),
                    None => None,
                },
                Some(_) => None,
            };
            match calls {
                Some(tool_calls) => Some(
                    ChatMessageView {
                        role,
                        content,
                        reasoning_content,
                        tool_calls,
                        tool_call_id,
                    },
                ),
                None => None,
            }
        },
        _ => None,
    }
}

impl ToolCall {
    /// Reads a tool call from its wire form.
    pub fn from_json(j: &Json) -> (r: Option<ToolCall>)
        ensures
            match r {
                Some(c) => tool_call_of_json(*j) == Some(c@),
                None => tool_call_of_json(*j) is None,
            },
    {
        let id = read_string(j, "id")?;
        let kind = read_string(j, "type")?;
        let f = get_member(j, "function")?;
        let name = read_string(f, "name")?;
        let arguments = read_string(f, "arguments")?;
        Some(ToolCall { id, kind, function: FunctionCall { name, arguments } })
    }
}

/// Reads the tool calls of a JSON array.
fn calls_from_items(items: &Vec<Json>) -> (r: Option<Vec<ToolCall>>)
    ensures
        match r {
            Some(cs) => tool_calls_of_items(items@) == Some(calls_view(cs@)),
            None => tool_calls_of_items(items@) is None,
        },
{
    let mut out: Vec<ToolCall> = Vec::new();
    let mut i: usize = 0;
    while i < items.len()
        invariant
            i <= items.len(),
            out@.len() == i,
            forall|k: int|
                0 <= k < i ==> tool_call_of_json(items@[k]) == Some(#[trigger] out@[k]@),
        decreases items.len() - i,
    {
        match ToolCall::from_json(&items[i]) {
            Some(c) => {
                out.push(c);
            },
            None => {
                return None;
            },
        }
        i = i + 1;
    }
    assert forall|k: int| 0 <= k < items@.len() implies (#[trigger] tool_call_of_json(
        items@[k],
    )) is Some by {
        assert(tool_call_of_json(items@[k]) == Some(out@[k]@));
    }
    assert(calls_view(out@) =~= items@.map_values(|j: Json| tool_call_of_json(j)->0));
    Some(out)
}

impl ChatMessage {
    /// Reads a message from its wire form.
    pub fn from_json(j: &Json) -> (r: Option<ChatMessage>)
        ensures
            match r {
                Some(m) => message_of_json(*j) == Some(m@),
                None => message_of_json(*j) is None,
            },
    {
        let role = read_string(j, "role")?;
        let content = read_opt_string(j, "content")?;
        let reasoning_content = read_opt_string(j, "reasoning_content")?;
        let tool_call_id = read_opt_string(j, "tool_call_id")?;
        let tool_calls = match get_member(j, "tool_calls") {
            None => None,
            Some(Json::Null) => None,
            Some(Json::Array(items)) => {
                match calls_from_items(items) {
                    Some(cs) => Some(cs),
                    None => {
                        return None;
                    },
                }
            },
            Some(_) => {
                return None;
            },
        };
        Some(ChatMessage { role, content, reasoning_content, tool_calls, tool_call_id })
    }
}

} // verus!

verus! {

// ---------------------------------------------------------------------------
// Tool outputs
// ---------------------------------------------------------------------------

/// Why a tool call produced no data.
#[derive(Debug, Clone, PartialEq)]
pub struct ToolError {
    pub code: String,
    pub message: String,
}

/// The structured result of one tool call: `{ok:true,data:...}` or
/// `{ok:false,error:{code,message}}`.
#[derive(Debug, PartialEq)]
pub struct ToolOutput {
    pub ok: bool,
    pub data: Option<Json>,
    pub error: Option<ToolError>,
}

/// The text of a JSON boolean.
pub open spec fn bool_text(b: bool) -> Seq<char> {
    if b {
        seq!['t', 'r', 'u', 'e']
    } else {
        seq!['f', 'a', 'l', 's', 'e']
    }
}

/// The wire text of a tool error.
pub open spec fn tool_error_text(code: Seq<char>, message: Seq<char>) -> Seq<char> {
    object_text(
        seq![field_text("code"@, json_quoted(code)), field_text("message"@, json_quoted(message))],
    )
}

/// The `data` member text of a tool output, if it has data.
pub open spec fn data_parts(o: ToolOutput) -> Seq<Seq<char>> {
    match o.data {
        Some(d) => seq![field_text("data"@, json_text(d))],
        None => Seq::empty(),
    }
}

/// The `error` member text of a tool output, if it has an error.
pub open spec fn error_parts(o: ToolOutput) -> Seq<Seq<char>> {
    match o.error {
        Some(e) => seq![field_text("error"@, tool_error_text(e.code@, e.message@))],
        None => Seq::empty(),
    }
}

/// The wire text of a tool output: `ok`, then `data` and `error` when present.
pub open spec fn output_text(o: ToolOutput) -> Seq<char> {
    object_text(seq![field_text("ok"@, bool_text(o.ok))] + data_parts(o) + error_parts(o))
}

/// Whether `o` is the failure with the given code and message.
pub open spec fn is_failure(o: ToolOutput, code: Seq<char>, message: Seq<char>) -> bool {
    &&& !o.ok
    &&& o.data is None
    &&& o.error matches Some(e) && e.code@ == code && e.message@ == message
}

/// Whether `o` is a success whose data has the JSON text `text`.
pub open spec fn is_success_text(o: ToolOutput, text: Seq<char>) -> bool {
    &&& o.ok
    &&& o.error is None
    &&& o.data is Some
    &&& json_text(o.data->0) == text
}

/// Whether `o` is the success carrying `data`.
pub open spec fn is_success(o: ToolOutput, data: Json) -> bool {
    &&& o.ok
    &&& o.data == Some(data)
    &&& o.error is None
}

impl ToolOutput {
    /// A successful result carrying `data`.
    pub fn success(data: Json) -> (o: ToolOutput)
        ensures
            is_success(o, data),
    {
        ToolOutput { ok: true, data: Some(data), error: None }
    }

    /// A failed result with an error code and a message.
    pub fn failure(code: &str, message: &str) -> (o: ToolOutput)
        ensures
            is_failure(o, code@, message@),
    {
        ToolOutput {
            ok: false,
            data: None,
            error: Some(ToolError { code: owned(code), message: owned(message) }),
        }
    }

    /// The error code of a failed result.
    pub open spec fn error_code(self) -> Option<Seq<char>> {
        match self.error {
            Some(e) => Some(e.code@),
            None => None,
        }
    }

    /// The wire text of this result.
    pub fn to_json_text(&self) -> (s: String)
        ensures
            s@ == output_text(*self),
    {
        let mut out = String::new();
        crate::text::push_char(&mut out, '{');
        push_field_key(&mut out, "ok");
        if self.ok {
            crate::text::push_chars(&mut out, &['t', 'r', 'u', 'e']);
        } else {
            crate::text::push_chars(&mut out, &['f', 'a', 'l', 's', 'e']);
        }
        let ghost p0 = seq![field_text("ok"@, bool_text(self.ok))];
        assert(out@ == seq!['{'] + crate::json::join_commas(p0));
        let ghost p1 = p0 + data_parts(*self);
        match &self.data {
            Some(d) => {
                crate::text::push_char(&mut out, ',');
                push_field_key(&mut out, "data");
                crate::json::write_json(d, &mut out);
                assert(p1.drop_last() =~= p0);
                assert(out@ =~= seq!['{'] + crate::json::join_commas(p1));
            },
            None => {
                assert(p1 =~= p0);
            },
        }
        let ghost p2 = p1 + error_parts(*self);
        match &self.error {
            Some(e) => {
                crate::text::push_char(&mut out, ',');
                push_field_key(&mut out, "error");
                let mut b = ObjectBuilder::new();
                b.add("code", json_str(&e.code));
                b.add("message", json_str(&e.message));
                let ghost be = b.entries();
                let ej = b.finish();
                assert(member_texts(be) =~= seq![
                    field_text("code"@, json_quoted(e.code@)),
                    field_text("message"@, json_quoted(e.message@)),
                ]);
                crate::json::write_json(&ej, &mut out);
                assert(p2.drop_last() =~= p1);
                assert(out@ =~= seq!['{'] + crate::json::join_commas(p2));
            },
            None => {
                assert(p2 =~= p1);
            },
        }
        crate::text::push_char(&mut out, '}');
        assert(out@ =~= output_text(*self));
        out
    }
}

/// Appends `"key":`.
fn push_field_key(out: &mut String, key: &str)
    ensures
        final(out)@ == old(out)@ + json_quoted(key@) + seq![':'],
{
    let q = Json::string(key);
    crate::json::write_json(&q, out);
    crate::text::push_char(out, ':');
}

/// The tool output that a JSON value describes: `ok` must be a boolean; `data`
/// is any value (`null` or absent means none); `error`, when present and not
/// `null`, must be an object with string `code` and `message`.
pub open spec fn output_of_json_ok(j: Json) -> bool {
    &&& member_value(j, "ok"@) matches Some(Json::Bool(_))
    &&& match member_value(j, "error"@) {
        None => true,
        Some(Json::Null) => true,
        Some(e) => string_member(e, "code"@) is Some && string_member(e, "message"@) is Some,
    }
}

impl ToolOutput {
    /// Reads a tool output from its wire form.
    pub fn from_json(j: Json) -> (r: Option<ToolOutput>)
        ensures
            r is Some <==> output_of_json_ok(j),
            r matches Some(o) ==> {
                &&& member_value(j, "ok"@) == Some(Json::Bool(o.ok))
                &&& match member_value(j, "data"@) {
                    None => o.data is None,
                    Some(Json::Null) => o.data is None,
                    Some(d) => o.data == Some(d),
                }
                &&& match member_value(j, "error"@) {
                    None => o.error is None,
                    Some(Json::Null) => o.error is None,
                    Some(e) => o.error matches Some(te) && string_member(e, "code"@) == Some(
                        te.code@,
                    ) && string_member(e, "message"@) == Some(te.message@),
                }
            },
    {
        let ok = match get_member(&j, "ok") {
            Some(Json::Bool(b)) => *b,
            _ => {
                return None;
            },
        };
        let error = match get_member(&j, "error") {
            None => None,
            Some(Json::Null) => None,
            Some(e) => {
                let code = read_string(e, "code");
                let message = read_string(e, "message");
                match (code, message) {
                    (Some(code), Some(message)) => Some(ToolError { code, message }),
                    _ => {
                        return None;
                    },
                }
            },
        };
        let data = take_member(j, "data");
        let data = match data {
            Some(Json::Null) => None,
            other => other,
        };
        Some(ToolOutput { ok, data, error })
    }
}

/// Moves the value stored under `key` out of an object value.
fn take_member(j: Json, key: &str) -> (r: Option<Json>)
    ensures
        r == member_value(j, key@),
{
    match j {
        Json::Object(mut ms) => {
            let k = chars_of(key);
            match crate::json::find_key(&ms, &k) {
                Some(i) => {
                    proof {
                        crate::json::lemma_key_index(ms@, key@, 0);
                    }
                    let m = ms.remove(i);
                    Some(m.value)
                },
                None => None,
            }
        },
        _ => None,
    }
}

} // verus!

verus! {

// ---------------------------------------------------------------------------
// Requests and responses
// ---------------------------------------------------------------------------

/// The schema-described function that a tool offers to the model.
#[derive(Debug, PartialEq)]
pub struct ToolFunctionSpec {
    pub name: String,
    pub description: String,
    pub parameters: Json,
}

/// A tool offered to the model.
#[derive(Debug, PartialEq)]
pub struct ToolDefinition {
    pub kind: String,
    pub function: ToolFunctionSpec,
}

/// Whether the model thinks before answering.
#[derive(Debug, Clone, PartialEq)]
pub struct ThinkingConfig {
    pub kind: String,
}

/// One chat-completion request.
#[derive(Debug, PartialEq)]
pub struct ChatRequest {
    pub model: String,
    pub messages: Vec<ChatMessage>,
    pub tools: Vec<ToolDefinition>,
    pub max_tokens: usize,
    pub stream: bool,
    pub thinking: ThinkingConfig,
    pub reasoning_effort: String,
    pub user_id: String,
}

/// One answer candidate of a response.
#[derive(Debug, Clone, PartialEq)]
pub struct Choice {
    pub message: ChatMessage,
    pub finish_reason: Option<String>,
}

/// Token accounting of a response.
#[derive(Debug, Clone, Default, PartialEq)]
pub struct Usage {
    pub prompt_tokens: u64,
    pub completion_tokens: u64,
    pub prompt_cache_hit_tokens: u64,
    pub prompt_cache_miss_tokens: u64,
}

/// One chat-completion response.
#[derive(Debug, Clone, PartialEq)]
pub struct ChatResponse {
    pub choices: Vec<Choice>,
    pub usage: Option<Usage>,
}

/// The wire text of a tool definition:
/// `{"type":..,"function":{"name":..,"description":..,"parameters":..}}`.
pub open spec fn definition_text(d: ToolDefinition) -> Seq<char> {
    object_text(
        seq![
            field_text("type"@, json_quoted(d.kind@)),
            field_text(
                "function"@,
                object_text(
                    seq![
                        field_text("name"@, json_quoted(d.function.name@)),
                        field_text("description"@, json_quoted(d.function.description@)),
                        field_text("parameters"@, json_text(d.function.parameters)),
                    ],
                ),
            ),
        ],
    )
}

impl ToolDefinition {
    /// The wire form of this definition.
    pub fn to_json(self) -> (j: Json)
        ensures
            json_text(j) == definition_text(self),
    {
        let ghost old_self = self;
        let mut f = ObjectBuilder::new();
        f.add("name", Json::Str(self.function.name));
        f.add("description", Json::Str(self.function.description));
        f.add("parameters", self.function.parameters);
        let ghost fe = f.entries();
        let fj = f.finish();
        assert(member_texts(fe) =~= seq![
            field_text("name"@, json_quoted(old_self.function.name@)),
            field_text("description"@, json_quoted(old_self.function.description@)),
            field_text("parameters"@, json_text(old_self.function.parameters)),
        ]);
        let mut b = ObjectBuilder::new();
        b.add("type", Json::Str(self.kind));
        b.add("function", fj);
        let ghost be = b.entries();
        let j = b.finish();
        assert(member_texts(be) =~= seq![
            field_text("type"@, json_quoted(old_self.kind@)),
            field_text(
                "function"@,
                object_text(
                    seq![
                        field_text("name"@, json_quoted(old_self.function.name@)),
                        field_text("description"@, json_quoted(old_self.function.description@)),
                        field_text("parameters"@, json_text(old_self.function.parameters)),
                    ],
                ),
            ),
        ]);
        j
    }
}

/// The wire texts of a sequence of messages.
pub open spec fn message_texts(ms: Seq<ChatMessage>) -> Seq<Seq<char>> {
    ms.map_values(|m: ChatMessage| message_text(m@))
}

/// The member texts of a request: `model`, `messages`, `tools` (only when some
/// are offered), `max_tokens`, `stream`, `thinking`, `reasoning_effort`,
/// `user_id`.
pub open spec fn request_parts(r: ChatRequest, tools_text: Seq<Seq<char>>) -> Seq<Seq<char>> {
    seq![
        field_text("model"@, json_quoted(r.model@)),
        field_text("messages"@, array_text(message_texts(r.messages@))),
    ] + (if r.tools@.len() > 0 {
        seq![field_text("tools"@, array_text(tools_text))]
    } else {
        Seq::empty()
    }) + seq![
        field_text("max_tokens"@, crate::text::decimal(r.max_tokens as nat)),
        field_text("stream"@, bool_text(r.stream)),
        field_text("thinking"@, object_text(seq![field_text("type"@, json_quoted(r.thinking.kind@))])),
        field_text("reasoning_effort"@, json_quoted(r.reasoning_effort@)),
        field_text("user_id"@, json_quoted(r.user_id@)),
    ]
}

impl ChatRequest {
    /// The wire form of this request.
    pub fn to_json(self) -> (r: Json)
        ensures
            json_text(r) == object_text(
                request_parts(self, self.tools@.map_values(|d: ToolDefinition| definition_text(d))),
            ),
    {
        let ghost old_self = self;
        let mut msgs: Vec<Json> = Vec::new();
        let mut i: usize = 0;
        while i < self.messages.len()
            invariant
                i <= self.messages.len(),
                msgs@.len() == i,
                forall|k: int|
                    0 <= k < i ==> json_text(#[trigger] msgs@[k]) == message_text(
                        self.messages@[k]@,
                    ),
            decreases self.messages.len() - i,
        {
            msgs.push(self.messages[i].to_json());
            i = i + 1;
        }
        assert(item_texts(msgs@) =~= message_texts(self.messages@));
        proof {
            lemma_array_text(msgs);
        }
        let ntools = self.tools.len();
        let mut tools: Vec<Json> = Vec::new();
        let mut defs = self.tools;
        let ghost mut texts: Seq<Seq<char>> = Seq::empty();
        while defs.len() > 0
            invariant
                tools@.len() + defs@.len() == ntools,
                ntools == old_self.tools@.len(),
                defs@ == old_self.tools@.skip(tools@.len() as int),
                item_texts(tools@) == texts,
                texts == old_self.tools@.take(tools@.len() as int).map_values(
                    |d: ToolDefinition| definition_text(d),
                ),
            decreases defs.len(),
        {
            let ghost k = tools@.len() as int;
            let d = defs.remove(0);
            assert(d == old_self.tools@[k]);
            let t = d.to_json();
            tools.push(t);
            proof {
                texts = texts.push(json_text(t));
            }
            assert(item_texts(tools@) =~= texts);
            assert(defs@ =~= old_self.tools@.skip(tools@.len() as int));
            assert(texts =~= old_self.tools@.take(tools@.len() as int).map_values(
                |d: ToolDefinition| definition_text(d),
            ));
        }
        assert(old_self.tools@.take(ntools as int) =~= old_self.tools@);
        proof {
            lemma_array_text(tools);
        }
        let mut b = ObjectBuilder::new();
        b.add("model", Json::Str(self.model));
        b.add("messages", Json::Array(msgs));
        if ntools > 0 {
            b.add("tools", Json::Array(tools));
        }
        let ghost p2 = member_texts(b.entries());
        b.add("max_tokens", Json::Number(JsonNumber::PosInt(self.max_tokens as u64)));
        b.add("stream", Json::Bool(self.stream));
        let mut t = ObjectBuilder::new();
        t.add("type", Json::Str(self.thinking.kind));
        let ghost te = t.entries();
        let tj = t.finish();
        assert(member_texts(te) =~= seq![field_text("type"@, json_quoted(old_self.thinking.kind@))]);
        b.add("thinking", tj);
        b.add("reasoning_effort", Json::Str(self.reasoning_effort));
        b.add("user_id", Json::Str(self.user_id));
        let ghost be = b.entries();
        let j = b.finish();
        assert(member_texts(be) =~= request_parts(old_self, texts));
        j
    }
}

/// The message of one response choice, if well formed.
pub open spec fn choice_message(item: Json) -> Option<ChatMessageView> {
    match member_value(item, "message"@) {
        Some(mj) => message_of_json(mj),
        None => None,
    }
}

/// Reads an unsigned counter; absent or not a non-negative integer counts as 0.
fn read_count(j: &Json, key: &str) -> (r: u64)
    ensures
        r == match member_value(*j, key@) {
            Some(Json::Number(JsonNumber::PosInt(u))) => u,
            _ => 0,
        },
{
    match get_member(j, key) {
        Some(Json::Number(JsonNumber::PosInt(u))) => *u,
        _ => 0,
    }
}

/// The finish reason of one response choice: its string, if it has one.
pub open spec fn choice_finish(item: Json) -> Option<Seq<char>> {
    match member_value(item, "finish_reason"@) {
        Some(Json::Str(s)) => Some(s@),
        _ => None,
    }
}

/// A token counter of a usage object: its value when it is a non-negative
/// integer, 0 otherwise.
pub open spec fn count_of(u: Json, key: Seq<char>) -> u64 {
    match member_value(u, key) {
        Some(Json::Number(JsonNumber::PosInt(n))) => n,
        _ => 0,
    }
}

/// Whether `usage` is what the response `j` reports: read from its `usage`
/// object, absent when there is none.
pub open spec fn usage_of(j: Json, usage: Option<Usage>) -> bool {
    match member_value(j, "usage"@) {
        Some(u) => if u is Object {
            usage matches Some(x) && x.prompt_tokens == count_of(u, "prompt_tokens"@)
                && x.completion_tokens == count_of(u, "completion_tokens"@)
                && x.prompt_cache_hit_tokens == count_of(u, "prompt_cache_hit_tokens"@)
                && x.prompt_cache_miss_tokens == count_of(u, "prompt_cache_miss_tokens"@)
        } else {
            usage is None
        },
        None => usage is None,
    }
}

impl ChatResponse {
    /// Reads a response from its wire form: `choices` must be an array of
    /// objects with a well-formed `message`; `usage` is read when present.
    #[verifier::loop_isolation(false)]
    pub fn from_json(j: &Json) -> (r: Option<ChatResponse>)
        ensures
            r matches Some(resp) ==> {
                &&& member_value(*j, "choices"@) matches Some(Json::Array(items))
                &&& resp.choices@.len() == items@.len()
                &&& forall|i: int|
                    0 <= i < items@.len() ==> choice_message(#[trigger] items@[i]) == Some(resp.choices@[i].message@)
                &&& forall|i: int|
                    0 <= i < items@.len() ==> choice_finish(#[trigger] items@[i]) == opt_view(
                        resp.choices@[i].finish_reason,
                    )
                &&& usage_of(*j, resp.usage)
            },
            r is None ==> !(member_value(*j, "choices"@) matches Some(Json::Array(items))
                && forall|i: int|
                0 <= i < items@.len() ==> choice_message(#[trigger] items@[i]) is Some),
    {
        let items = match get_member(j, "choices") {
            Some(Json::Array(items)) => items,
            _ => {
                return None;
            },
        };
        let mut choices: Vec<Choice> = Vec::new();
        let mut i: usize = 0;
        while i < items.len()
            invariant
                i <= items.len(),
                choices@.len() == i,
                forall|k: int|
                    0 <= k < i ==> choice_message(#[trigger] items@[k]) == Some(choices@[k].message@),
                forall|k: int|
                    0 <= k < i ==> choice_finish(#[trigger] items@[k]) == opt_view(
                        choices@[k].finish_reason,
                    ),
            decreases items.len() - i,
        {
            let mj = match get_member(&items[i], "message") {
                Some(m) => m,
                None => {
                    assert(choice_message(items@[i as int]) is None);
                    return None;
                },
            };
            let message = match ChatMessage::from_json(mj) {
                Some(m) => m,
                None => {
                    assert(choice_message(items@[i as int]) is None);
                    return None;
                },
            };
            let finish_reason = match get_member(&items[i], "finish_reason") {
                Some(Json::Str(s)) => Some(s.clone()),
                _ => None,
            };
            choices.push(Choice { message, finish_reason });
            i = i + 1;
        }
        let usage = match get_member(j, "usage") {
            Some(u) => match u {
                Json::Object(_) => Some(
                    Usage {
                        prompt_tokens: read_count(u, "prompt_tokens"),
                        completion_tokens: read_count(u, "completion_tokens"),
                        prompt_cache_hit_tokens: read_count(u, "prompt_cache_hit_tokens"),
                        prompt_cache_miss_tokens: read_count(u, "prompt_cache_miss_tokens"),
                    },
                ),
                _ => None,
            },
            None => None,
        };
        Some(ChatResponse { choices, usage })
    }
}

} // verus!
