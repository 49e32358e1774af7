use mini_coding_agent::json::{get_member, parse_json, to_json_string, Json, JsonNumber};
use mini_coding_agent::model::ToolOutput;
use mini_coding_agent::paths::{friendly_path, join_path, resolve, resolve_on};
use mini_coding_agent::tools::edit_file::{EditArgs, EditStep};
use serde::de::Unexpected;
use serde_json::Value;
use mini_coding_agent::tools::calculator::Evaluation;
use mini_coding_agent::tools::shell::bounded_text;
use mini_coding_agent::tools::todo::TodoItem;
use mini_coding_agent::tools::{
    CalculatorTool, EditFileTool, ReadFileTool, SearchTool, ShellTool, StandardTool, TodoTool,
    Tool, ToolEffect, ToolRegistry,
};

fn json(text: &str) -> Json {
    parse_json(text).unwrap()
}

fn data_text(output: &ToolOutput) -> String {
    assert!(output.ok, "tool failed: {:?}", output.error);
    to_json_string(output.data.as_ref().unwrap())
}

fn code(output: &ToolOutput) -> String {
    assert!(!output.ok);
    output.error.as_ref().unwrap().code.clone()
}

#[test]
fn schema_validation_rejects_unknown_fields() {
    let error = StandardTool::Calculator
        .validate(&json(r#"{"expression":"1+1","extra":true}"#))
        .unwrap_err();
    assert!(error.contains("unknown field"));
}

#[test]
fn validation_messages_follow_each_tool() {
    assert!(CalculatorTool.validate(&json(r#"{"expression":"1+1"}"#)).is_ok());
    assert!(CalculatorTool
        .validate(&json(r#"{}"#))
        .unwrap_err()
        .contains("missing field `expression`"));
    assert_eq!(
        ShellTool.validate(&json(r#"{"command":"  "}"#)).unwrap_err(),
        "command cannot be empty"
    );
    assert_eq!(
        ShellTool
            .validate(&json(r#"{"command":"ls","timeout_ms":50}"#))
            .unwrap_err(),
        "timeout_ms must be between 100 and 600000"
    );
    assert_eq!(
        ReadFileTool
            .validate(&json(r#"{"path":"a","offset":0}"#))
            .unwrap_err(),
        "offset is 1-based and must be positive"
    );
    assert_eq!(
        ReadFileTool
            .validate(&json(r#"{"path":"a","limit":2001}"#))
            .unwrap_err(),
        "limit must be between 1 and 2000"
    );
    assert_eq!(
        TodoTool.validate(&json(r#"{"action":"add"}"#)).unwrap_err(),
        "title is required for add"
    );
    assert_eq!(
        TodoTool.validate(&json(r#"{"action":"complete"}"#)).unwrap_err(),
        "id is required for complete"
    );
    assert!(SearchTool.validate(&json(r#"{"query":"rust"}"#)).is_ok());
    assert!(EditFileTool
        .validate(&json(r#"{"path":"a.txt","old_text":"","new_text":"x"}"#))
        .is_ok());
}

#[test]
fn effects_of_tools() {
    assert_eq!(
        TodoTool.effect(&json(r#"{"action":"list"}"#)),
        ToolEffect::ReadOnly
    );
    assert_eq!(
        TodoTool.effect(&json(r#"{"action":"add","title":"x"}"#)),
        ToolEffect::Mutating
    );
    assert_eq!(StandardTool::Shell.effect(&json("{}")), ToolEffect::Mutating);
    assert_eq!(StandardTool::Search.effect(&json("{}")), ToolEffect::ReadOnly);
    assert_eq!(StandardTool::named("read_file"), Some(StandardTool::ReadFile));
    assert_eq!(StandardTool::named("nope"), None);
    assert_eq!(StandardTool::all().len(), 6);
}

#[test]
fn calculator_reports_an_evaluated_result() {
    let output = CalculatorTool.output(Evaluation::Finite("14.0".into()));
    assert_eq!(data_text(&output), r#"{"result":14.0}"#);
    assert_eq!(
        code(&CalculatorTool.output(Evaluation::NonFinite)),
        "non_finite_result"
    );
    let failed = CalculatorTool.output(Evaluation::Failed("bad".into()));
    assert_eq!(failed.error.unwrap().message, "bad");
}

#[test]
fn edit_rejects_ambiguous_match() {
    let refused = EditFileTool.replace_once("x x", "x", "y").unwrap_err();
    assert_eq!(code(&refused), "match_count");
    assert_eq!(
        refused.error.unwrap().message,
        "old_text must match exactly once; found 2"
    );
    assert_eq!(
        code(&EditFileTool.replace_once("abc", "z", "y").unwrap_err()),
        "match_count"
    );
}

#[test]
fn edit_replaces_the_single_match() {
    let updated = EditFileTool.replace_once("one\ntwo", "two", "three").unwrap();
    assert_eq!(updated, "one\nthree");
    let report = EditFileTool.replaced("a.txt", "one\ntwo", &updated);
    assert_eq!(
        data_text(&report),
        r#"{"created":false,"new_bytes":9,"old_bytes":7,"path":"a.txt"}"#
    );
    let created = EditFileTool.created("a.txt", "one\ntwo");
    assert_eq!(
        data_text(&created),
        r#"{"bytes_written":7,"created":true,"path":"a.txt"}"#
    );
    assert_eq!(code(&EditFileTool.already_exists()), "already_exists");
}

#[test]
fn read_file_supports_pagination() {
    let output = ReadFileTool.page("lines.txt", b"one\ntwo\nthree\n", 2, 1);
    let data = output.data.as_ref().unwrap();
    match get_member(data, "content") {
        Some(Json::Str(content)) => assert!(content.contains("two")),
        _ => panic!("no content"),
    }
    assert_eq!(
        get_member(data, "next_offset"),
        Some(&Json::Number(JsonNumber::PosInt(3)))
    );
    assert_eq!(
        data_text(&output),
        r#"{"content":"     2 | two","next_offset":3,"path":"lines.txt","total_lines":3,"truncated":false}"#
    );
    let last = ReadFileTool.page("lines.txt", b"one\ntwo\nthree\n", 3, 5);
    assert_eq!(get_member(last.data.as_ref().unwrap(), "next_offset"), Some(&Json::Null));
}

#[test]
fn read_file_rejects_binary_content() {
    let output = ReadFileTool.page("binary.bin", &[1_u8, 0, 2], 1, 10);
    assert_eq!(code(&output), "binary_file");
}

#[test]
fn shell_nonzero_exit_is_an_observation() {
    let output = ShellTool.finished(Some(7), false, b"", b"");
    assert_eq!(
        data_text(&output),
        r#"{"exit_code":7,"stderr":"","stdout":"","success":false,"truncated":false}"#
    );
    let hello = ShellTool.finished(Some(0), true, b"hello", b"");
    assert!(data_text(&hello).contains(r#""stdout":"hello""#));
}

#[test]
fn shell_times_out() {
    let output = ShellTool.timed_out(100);
    assert_eq!(code(&output), "timeout");
    assert_eq!(output.error.unwrap().message, "command exceeded 100 ms");
    assert_eq!(code(&ShellTool.spawn_failed("no shell")), "spawn_error");
}

#[test]
fn shell_output_is_bounded() {
    let long = vec![b'a'; 70_000];
    let (text, truncated) = bounded_text(&long);
    assert!(truncated);
    assert_eq!(text.len(), 65_536);
    let (short, cut) = bounded_text(b"ok");
    assert_eq!(short, "ok");
    assert!(!cut);
}

#[test]
fn todo_reports() {
    assert_eq!(
        data_text(&TodoTool.added(Ok(3))),
        r#"{"id":3,"status":"open"}"#
    );
    let items = vec![TodoItem { id: 1, title: "one".into(), status: "open".into() }];
    assert_eq!(
        data_text(&TodoTool.listed(Ok(items))),
        r#"{"items":[{"id":1,"status":"open","title":"one"}]}"#
    );
    assert_eq!(code(&TodoTool.completed(Some(9), Ok(false))), "not_found");
    assert_eq!(
        data_text(&TodoTool.completed(Some(9), Ok(true))),
        r#"{"id":9,"status":"completed"}"#
    );
}

#[test]
fn search_is_deterministic() {
    let first = SearchTool.execute(&json(r#"{"query":"rust"}"#));
    let second = SearchTool.execute(&json(r#"{"query":"rust"}"#));
    assert_eq!(data_text(&first), data_text(&second));
}

#[test]
fn paths_resolve_against_the_workspace() {
    assert_eq!(resolve("/work", "a.txt"), "/work/a.txt");
    assert_eq!(resolve("/work/", "a.txt"), "/work/a.txt");
    assert_eq!(resolve("/work", "/etc/hosts"), "/etc/hosts");
    assert_eq!(join_path("", "a"), "a");
    assert_eq!(friendly_path(r"\\?\C:\x"), r"C:\x");
    assert_eq!(friendly_path("/home/u"), "/home/u");
}

#[test]
fn strings_are_quoted_and_escaped() {
    assert_eq!(to_json_string(&Json::Str("a\"b\\c\n".into())), r#""a\"b\\c\n""#);
    assert_eq!(
        to_json_string(&json(r#"{"k":[1,-2,2.50,null,true]}"#)),
        r#"{"k":[1,-2,2.5,null,true]}"#
    );
    assert!(parse_json("{").is_err());
}

#[test]
fn invalid_utf8_is_read_lossily() {
    let output = ReadFileTool.page("x.txt", &[b'a', 0xff, b'b'], 1, 10);
    match get_member(output.data.as_ref().unwrap(), "content") {
        Some(Json::Str(content)) => assert_eq!(content, "     1 | a\u{fffd}b"),
        _ => panic!("no content"),
    }
}

#[test]
fn search_ignores_case() {
    let output = SearchTool.execute(&json(r#"{"query":"SQLITE","limit":1}"#));
    assert_eq!(
        data_text(&output),
        r#"{"mock":true,"query":"SQLITE","results":[{"snippet":"SQLite provides transactional embedded persistence suitable for local sessions.","title":"SQLite","url":"mock://sqlite"}]}"#
    );
    let nothing = SearchTool.execute(&json(r#"{"query":"zzz"}"#));
    assert_eq!(data_text(&nothing), r#"{"mock":true,"query":"zzz","results":[]}"#);
}

#[test]
fn pages_and_searches_from_prepared_text() {
    let page = ReadFileTool.page_of_text("t.txt", "a\r\nb\n", 1, 5);
    assert_eq!(
        data_text(&page),
        r#"{"content":"     1 | a\n     2 | b","next_offset":null,"path":"t.txt","total_lines":2,"truncated":false}"#
    );
    let found = SearchTool.search_lowered("Agent", "agent", 5);
    assert!(to_json_string(&found).contains(r#""url":"mock://agent-loop""#));
}

#[test]
fn edit_counts_overlapping_matches() {
    let refused = EditFileTool.replace_once("aaa", "aa", "b").unwrap_err();
    assert_eq!(code(&refused), "match_count");
    assert_eq!(
        refused.error.unwrap().message,
        "old_text must match exactly once; found 2"
    );
    assert_eq!(EditFileTool.replace_once("aab", "ab", "c").unwrap(), "ac");
}

#[test]
fn argument_refusals_read_like_serde() {
    assert_eq!(
        CalculatorTool.validate(&json(r#"{"expression":1}"#)).unwrap_err(),
        "invalid type: integer `1`, expected a string"
    );
    assert_eq!(
        CalculatorTool.validate(&json("[1]")).unwrap_err(),
        "invalid type: sequence, expected struct Args"
    );
    assert_eq!(
        CalculatorTool.validate(&json(r#"{"expression":"1","x":2}"#)).unwrap_err(),
        "unknown field `x`, expected `expression`"
    );
    assert_eq!(
        TodoTool.validate(&json(r#"{"action":"x"}"#)).unwrap_err(),
        "unknown variant `x`, expected one of `add`, `list`, `complete`"
    );
    assert_eq!(
        TodoTool.validate(&json(r#"{"action":{"add":1}}"#)).unwrap_err(),
        "invalid type: integer `1`, expected unit"
    );
    assert!(TodoTool.validate(&json(r#"{"action":{"list":null}}"#)).is_ok());
    assert_eq!(
        ShellTool.validate(&json(r#"{"command":"ls","timeout_ms":-5}"#)).unwrap_err(),
        "invalid value: integer `-5`, expected u64"
    );
    assert_eq!(
        SearchTool.validate(&json(r#"{"query":true}"#)).unwrap_err(),
        "invalid type: boolean `true`, expected a string"
    );
    assert_eq!(
        SearchTool.validate(&json(r#"{"query":"a","limit":"b\"c"}"#)).unwrap_err(),
        "invalid type: string \"b\\\"c\", expected usize"
    );
}

fn described(tool: &dyn Tool) -> String {
    format!("{}: {}", tool.name(), tool.description())
}

#[test]
fn tools_answer_through_the_trait() {
    assert!(described(&CalculatorTool).starts_with("calculator: "));
    assert!(described(&StandardTool::EditFile).starts_with("edit_file: "));
    let tools: Vec<Box<dyn Tool>> = vec![
        Box::new(ShellTool),
        Box::new(ReadFileTool),
        Box::new(SearchTool),
        Box::new(TodoTool),
    ];
    let names: Vec<&str> = tools.iter().map(|t| t.name()).collect();
    assert_eq!(names, vec!["shell", "read_file", "search", "todo"]);
    assert_eq!(Tool::effect(&SearchTool, &json("{}")), ToolEffect::ReadOnly);
    assert!(Tool::validate(&TodoTool, &json(r#"{"action":"list"}"#)).is_ok());
}

#[test]
fn control_characters_are_escaped_as_serde_json_does() {
    assert_eq!(
        to_json_string(&Json::Str("\u{1}\t\u{8}\u{c}\r\u{1f}é".into())),
        r#""\u0001\t\b\f\r\u001fé""#
    );
}

fn serde_unknown_field(field: &str, expected: &'static [&'static str]) -> String {
    <serde_json::Error as serde::de::Error>::unknown_field(field, expected).to_string()
}

fn serde_missing_field(field: &'static str) -> String {
    <serde_json::Error as serde::de::Error>::missing_field(field).to_string()
}

fn serde_unknown_variant(variant: &str, expected: &'static [&'static str]) -> String {
    <serde_json::Error as serde::de::Error>::unknown_variant(variant, expected).to_string()
}

fn serde_invalid_type(unexpected: Unexpected, expected: &str) -> String {
    <serde_json::Error as serde::de::Error>::invalid_type(unexpected, &expected).to_string()
}

fn serde_says<T: serde::de::DeserializeOwned + std::fmt::Debug>(value: serde_json::Value) -> String {
    serde_json::from_value::<T>(value).unwrap_err().to_string()
}

#[test]
fn field_refusals_match_serde_json() {
    assert_eq!(
        CalculatorTool.validate(&json(r#"{"expression":1}"#)).unwrap_err(),
        serde_says::<String>(Value::from(1u64))
    );
    assert_eq!(
        ShellTool.validate(&json(r#"{"command":"ls","timeout_ms":-5}"#)).unwrap_err(),
        serde_says::<Option<u64>>(Value::from(-5i64))
    );
    assert_eq!(
        ShellTool.validate(&json(r#"{"command":"ls","timeout_ms":"soon"}"#)).unwrap_err(),
        serde_says::<Option<u64>>(Value::from("soon"))
    );
    assert_eq!(
        SearchTool.validate(&json(r#"{"query":"a","limit":"b\"c"}"#)).unwrap_err(),
        serde_says::<Option<usize>>(Value::from("b\"c"))
    );
    assert_eq!(
        SearchTool.validate(&json(r#"{"query":true}"#)).unwrap_err(),
        serde_says::<String>(Value::Bool(true))
    );
    assert_eq!(
        ReadFileTool.validate(&json(r#"{"path":"a","offset":1.5}"#)).unwrap_err(),
        serde_says::<Option<usize>>(Value::from(1.5f64))
    );
    assert_eq!(
        ReadFileTool.validate(&json(r#"{"path":"a","limit":-1}"#)).unwrap_err(),
        serde_says::<Option<usize>>(Value::from(-1i64))
    );
    assert_eq!(
        TodoTool.validate(&json(r#"{"action":"list","id":18446744073709551615}"#)).unwrap_err(),
        serde_says::<Option<i64>>(Value::from(u64::MAX))
    );
    assert_eq!(
        TodoTool.validate(&json(r#"{"action":"list","title":[]}"#)).unwrap_err(),
        serde_says::<Option<String>>(Value::Array(vec![]))
    );
    assert_eq!(
        EditFileTool.validate(&json(r#"{"path":null,"old_text":"","new_text":""}"#)).unwrap_err(),
        serde_says::<String>(Value::Null)
    );
}

#[test]
fn structural_refusals_match_serde() {
    assert_eq!(
        CalculatorTool.validate(&json(r#"{"expression":"1","x":2}"#)).unwrap_err(),
        serde_unknown_field("x", &["expression"])
    );
    assert_eq!(
        SearchTool.validate(&json(r#"{"query":"1","x":2}"#)).unwrap_err(),
        serde_unknown_field("x", &["query", "limit"])
    );
    assert_eq!(
        ReadFileTool.validate(&json(r#"{"path":"a","x":2}"#)).unwrap_err(),
        serde_unknown_field("x", &["path", "offset", "limit"])
    );
    assert_eq!(
        EditFileTool.validate(&json(r#"{"path":"a","new_text":""}"#)).unwrap_err(),
        serde_missing_field("old_text")
    );
    assert_eq!(
        TodoTool.validate(&json(r#"{"action":"drop"}"#)).unwrap_err(),
        serde_unknown_variant("drop", &["add", "list", "complete"])
    );
    assert_eq!(
        ShellTool.validate(&json("[\"ls\"]")).unwrap_err(),
        serde_invalid_type(Unexpected::Seq, &"struct Args")
    );
    assert_eq!(
        ShellTool.validate(&json("\"ls\"")).unwrap_err(),
        serde_invalid_type(Unexpected::Str("ls"), &"struct Args")
    );
}

#[test]
fn edit_steps_follow_old_text_and_existence() {
    let create = EditArgs { path: "a.txt".into(), old_text: String::new(), new_text: "x".into() };
    assert_eq!(EditFileTool.step(&create, false), EditStep::Create);
    assert_eq!(EditFileTool.step(&create, true), EditStep::AlreadyExists);
    let edit = EditArgs { path: "a.txt".into(), old_text: "x".into(), new_text: "y".into() };
    assert_eq!(EditFileTool.step(&edit, true), EditStep::Replace);
    assert_eq!(EditFileTool.step(&edit, false), EditStep::Replace);
}

#[test]
fn paths_resolve_with_the_platform_rules() {
    assert_eq!(resolve_on("/ws", "a/b", false, '/'), "/ws/a/b");
    assert_eq!(resolve_on("/ws/", "a", false, '/'), "/ws/a");
    assert_eq!(resolve_on("/ws", "/etc/x", true, '/'), "/etc/x");
    assert_eq!(resolve_on(r"C:\ws", r"C:\x", true, '\\'), r"C:\x");
    assert_eq!(resolve_on(r"C:\ws", "a.txt", false, '\\'), r"C:\ws\a.txt");
    assert_eq!(resolve_on(r"C:\ws\", "a.txt", false, '\\'), r"C:\ws\a.txt");
    assert_eq!(resolve_on("", "a.txt", false, '\\'), "a.txt");
    let here = std::path::Path::new("/ws").join("a.txt");
    assert_eq!(
        resolve_on("/ws", "a.txt", std::path::Path::new("a.txt").is_absolute(), std::path::MAIN_SEPARATOR),
        here.to_str().unwrap()
    );
}

#[test]
fn registry_finds_tools_by_name() {
    let standard = ToolRegistry::standard();
    assert_eq!(standard.len(), 6);
    assert_eq!(standard.get("edit_file"), Some(&StandardTool::EditFile));
    assert_eq!(standard.get("todo"), Some(&StandardTool::Todo));
    assert_eq!(standard.get("nope"), None);

    let mut mine: ToolRegistry<StandardTool> = ToolRegistry::new();
    assert_eq!(mine.len(), 0);
    mine.register(StandardTool::Search);
    mine.register(StandardTool::Shell);
    mine.register(StandardTool::Search);
    assert_eq!(mine.len(), 2);
    assert_eq!(mine.get("search"), Some(&StandardTool::Search));
    assert_eq!(mine.get("read_file"), None);

    let mut single: ToolRegistry<SearchTool> = ToolRegistry::new();
    single.register(SearchTool);
    assert_eq!(single.get("search").map(|t| t.name()), Some("search"));
    assert!(single.get("shell").is_none());
}
