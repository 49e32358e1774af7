use std::sync::Mutex;

use mini_coding_agent::commands::{parse_command, ReplCommand};
use mini_coding_agent::config::{
    check_secret, choose_api_key, local_user_id, read_result, resolve_api_key, AppConfig,
    ConfigStore, CredentialStore, PasswordRead,
};
use mini_coding_agent::error::AgentError;
use mini_coding_agent::memory::{has_column, needs_title_column, Memory, SessionInfo};
use mini_coding_agent::permission::{PermissionMode, StdinApprover};
use mini_coding_agent::memory::StoredMessage;
use mini_coding_agent::model::ChatMessage;
use mini_coding_agent::repl::{
    banner_text, framed, history_text, prompt_text, resume_choice, session_id_text,
    session_list_text, session_title, status_text, ReplAction, ReplInput, HELP_TEXT,
    HISTORY_LIMIT,
};

struct FakeCredentials(Mutex<Option<String>>);

impl CredentialStore for FakeCredentials {
    fn get(&self) -> Result<Option<String>, AgentError> {
        Ok(self.0.lock().unwrap().clone())
    }

    fn set(&self, secret: &str) -> Result<(), AgentError> {
        *self.0.lock().unwrap() = Some(secret.into());
        Ok(())
    }
}

struct FailingCredentials;

impl CredentialStore for FailingCredentials {
    fn get(&self) -> Result<Option<String>, AgentError> {
        panic!("the credential store must not be asked when the environment has a key")
    }

    fn set(&self, _secret: &str) -> Result<(), AgentError> {
        Ok(())
    }
}

fn info(id: &str, title: &str) -> SessionInfo {
    SessionInfo { session_id: id.into(), title: title.into(), updated_at: 0 }
}

#[test]
fn slash_parser_is_deterministic() {
    assert_eq!(parse_command("hello"), ReplCommand::Message("hello".into()));
    assert_eq!(parse_command("/new"), ReplCommand::New);
    assert_eq!(
        parse_command("/resume abc"),
        ReplCommand::Resume(Some("abc".into()))
    );
    assert_eq!(
        parse_command("/permission full-access"),
        ReplCommand::Permission(Some(PermissionMode::FullAccess))
    );
    assert_eq!(parse_command("/trace on"), ReplCommand::Trace(true));
    assert_eq!(parse_command("/paste"), ReplCommand::Paste);
    assert!(matches!(parse_command("/bad"), ReplCommand::Unknown(_)));
}

#[test]
fn slash_parser_edge_cases() {
    assert_eq!(parse_command("  spaced out  "), ReplCommand::Message("spaced out".into()));
    assert_eq!(parse_command("/quit"), ReplCommand::Exit);
    assert_eq!(parse_command("/trace off"), ReplCommand::Trace(false));
    assert_eq!(
        parse_command("/trace maybe"),
        ReplCommand::Unknown("/trace maybe".into())
    );
    assert_eq!(
        parse_command("/permission sometimes"),
        ReplCommand::Unknown("/permission sometimes".into())
    );
    assert_eq!(parse_command("/permission"), ReplCommand::Permission(None));
    assert_eq!(parse_command("/resume"), ReplCommand::Resume(None));
    assert_eq!(
        parse_command("/resume a b"),
        ReplCommand::Unknown("/resume a b".into())
    );
    assert_eq!(parse_command("/status"), ReplCommand::Status);
    assert_eq!(parse_command("/help"), ReplCommand::Help);
    assert_eq!(parse_command("/config"), ReplCommand::Config);
    assert_eq!(parse_command("/sessions"), ReplCommand::Sessions);
}

#[test]
fn environment_key_wins_over_stored_key() {
    let credentials = FakeCredentials(Mutex::new(Some("stored-key".into())));
    assert_eq!(
        resolve_api_key(Some("environment-key".into()), &credentials).unwrap(),
        Some("environment-key".into())
    );
    assert_eq!(
        resolve_api_key(None, &credentials).unwrap(),
        Some("stored-key".into())
    );
    assert_eq!(
        resolve_api_key(Some("   ".into()), &credentials).unwrap(),
        Some("stored-key".into())
    );
    assert_eq!(
        resolve_api_key(Some("environment-key".into()), &FailingCredentials).unwrap(),
        Some("environment-key".into())
    );
}

#[test]
fn credential_outcomes_map_to_keys_and_errors() {
    assert_eq!(
        read_result(PasswordRead::Found("k".into())).unwrap(),
        Some("k".into())
    );
    assert_eq!(read_result(PasswordRead::Missing).unwrap(), None);
    assert_eq!(
        read_result(PasswordRead::Failed("locked".into())).unwrap_err(),
        AgentError::Config("cannot read API key: locked".into())
    );
    assert_eq!(
        check_secret("  ").unwrap_err(),
        AgentError::Config("API key cannot be empty".into())
    );
    assert!(check_secret("sk-1").is_ok());
    assert_eq!(
        choose_api_key(None, Err(AgentError::Config("x".into()))).unwrap_err(),
        AgentError::Config("x".into())
    );
}

#[test]
fn settings_never_hold_an_api_key() {
    let config = AppConfig::for_user("u");
    assert_eq!(config.model, "deepseek-v4-flash");
    assert_eq!(config.base_url, "https://api.deepseek.com");
    assert_eq!(config.user_id, "u");
    assert_eq!(config.default_permission, PermissionMode::RequireApproval);
    assert_eq!(config.workspace, ".");
    assert_eq!(config.database, None);
}

#[test]
fn database_path_prefers_the_configured_database() {
    let store = ConfigStore::at("/cfg/config.json", "/data/agent.db");
    assert_eq!(store.path(), "/cfg/config.json");
    let mut config = AppConfig::for_user("u");
    assert_eq!(store.database_path(&config), "/data/agent.db");
    config.database = Some("/elsewhere/x.db".into());
    assert_eq!(store.database_path(&config), "/elsewhere/x.db");
}

#[test]
fn config_store_locations() {
    let explicit = ConfigStore::from_locations(Some("/c".into()), None, None).unwrap();
    assert_eq!(explicit.path(), "/c/config.json");
    assert_eq!(
        explicit.database_path(&AppConfig::for_user("u")),
        "/c/agent.db"
    );
    let split =
        ConfigStore::from_locations(Some("/c/".into()), Some("/d".into()), None).unwrap();
    assert_eq!(split.path(), "/c/config.json");
    assert_eq!(split.database_path(&AppConfig::for_user("u")), "/d/agent.db");
    let platform = ConfigStore::from_locations(
        None,
        Some("/ignored".into()),
        Some(("/home/u/.config/agent-demo".into(), "/home/u/.local/share/agent-demo".into())),
    )
    .unwrap();
    assert_eq!(platform.path(), "/home/u/.config/agent-demo/config.json");
    assert_eq!(
        ConfigStore::from_locations(None, None, None).unwrap_err(),
        AgentError::Config("cannot determine the user configuration directory".into())
    );
}

#[test]
fn local_user_falls_back_in_order() {
    assert_eq!(local_user_id(Some("alice".into()), Some("bob".into())), "alice");
    assert_eq!(local_user_id(None, Some("bob".into())), "bob");
    assert_eq!(local_user_id(None, None), "local-user");
    assert_eq!(local_user_id(Some(" ".into()), Some("bob".into())), "local-user");
}

#[test]
fn paste_mode_submits_one_multiline_request() {
    let mut input = ReplInput::new();
    assert!(matches!(input.on_line(Some("/paste".into())), ReplAction::Collect));
    assert!(input.pasting());
    assert!(matches!(input.on_line(Some("first line".into())), ReplAction::Collect));
    assert!(matches!(input.on_line(Some("second line".into())), ReplAction::Collect));
    match input.on_line(Some(".".into())) {
        ReplAction::Submit(text) => assert_eq!(text, "first line\nsecond line"),
        _ => panic!("paste mode did not submit"),
    }
    assert!(!input.pasting());
    assert!(matches!(
        input.on_line(Some("/exit".into())),
        ReplAction::Run(ReplCommand::Exit)
    ));
}

#[test]
fn blank_input_and_end_of_input() {
    let mut input = ReplInput::new();
    assert!(matches!(input.on_line(Some("   ".into())), ReplAction::Ignore));
    assert!(matches!(input.on_line(Some("/paste".into())), ReplAction::Collect));
    assert!(matches!(input.on_line(Some(" . ".into())), ReplAction::Ignore));
    assert!(matches!(input.on_line(Some("/paste".into())), ReplAction::Collect));
    assert!(matches!(input.on_line(None), ReplAction::Quit));
    assert!(!input.pasting());
    match input.on_line(Some(" hello ".into())) {
        ReplAction::Submit(text) => assert_eq!(text, "hello"),
        _ => panic!("a message was not submitted"),
    }
}

#[test]
fn first_message_sets_a_concise_session_title() {
    let title = session_title(
        "This is the first user message that should become a concise session title",
    );
    assert!(title.starts_with("This is the first user message"));
    assert!(title.chars().count() <= 48);
    assert_eq!(title, "This is the first user message that should becom");
    assert_eq!(session_title("  several   spaces\tand\nlines "), "several spaces and lines");
}

#[test]
fn resume_without_id_accepts_a_list_number() {
    let sessions = vec![info("saved-session", "Saved work"), info("other", "")];
    assert_eq!(resume_choice(&sessions, "1").unwrap(), "saved-session");
    assert_eq!(resume_choice(&sessions, " 2 ").unwrap(), "other");
    assert_eq!(resume_choice(&sessions, "0").unwrap(), "saved-session");
    assert_eq!(resume_choice(&sessions, "named-id").unwrap(), "named-id");
    assert_eq!(
        resume_choice(&sessions, "3").unwrap_err(),
        AgentError::Config("invalid session selection".into())
    );
    let listing = session_list_text(&sessions);
    assert!(listing.contains("1. saved-session"));
    assert_eq!(
        listing,
        "Recent sessions:\n  1. saved-session  Saved work\n  2. other  (untitled)\n"
    );
}

#[test]
fn shell_texts() {
    let banner = banner_text("s-1", PermissionMode::RequireApproval, r"\\?\C:\work");
    assert!(banner.contains("Type /help"));
    assert_eq!(
        banner,
        "Mini Coding Agent\nSession: s-1\nPermission: require-approval\nWorkspace: C:\\work\nType /help for commands.\n"
    );
    assert_eq!(
        prompt_text("s-1", PermissionMode::FullAccess),
        "\n[s-1 | full-access] ❯ "
    );
    assert_eq!(
        status_text("s-1", "", PermissionMode::FullAccess, "/w", true),
        "Session: s-1\nTitle: (untitled)\nPermission: full-access\nWorkspace: /w\nTrace: on\n"
    );
    assert_eq!(
        framed("Unknown command: ", "/bad", ". Type /help.\n"),
        "Unknown command: /bad. Type /help.\n"
    );
    assert!(HELP_TEXT.starts_with("/new"));
    assert_eq!(session_id_text(255, 16, 0), "s-ff-10-0");
}

#[test]
fn approver_answers() {
    assert!(StdinApprover::accepts(" y\n"));
    assert!(StdinApprover::accepts("Y"));
    assert!(!StdinApprover::accepts("yes"));
    assert!(!StdinApprover::accepts(""));
    assert!(StdinApprover::approves_without_asking(0));
    assert!(!StdinApprover::approves_without_asking(2));
    assert_eq!(StdinApprover::heading(2), "\nAgent requests 2 tool call(s):");
    assert_eq!(StdinApprover::call_line(0, "shell"), "\n[1] shell");
}

#[test]
fn permission_names_round_trip() {
    for mode in [PermissionMode::FullAccess, PermissionMode::RequireApproval] {
        assert_eq!(PermissionMode::parse(mode.name()).unwrap(), mode);
        assert_eq!(mode.name().parse::<PermissionMode>().unwrap(), mode);
    }
    assert_eq!(
        PermissionMode::parse("root").unwrap_err(),
        "expected full-access or require-approval"
    );
}

#[test]
fn old_database_needs_the_title_column() {
    let old: Vec<String> = ["user_id", "session_id", "summary"].iter().map(|s| s.to_string()).collect();
    assert!(needs_title_column(&old));
    let new: Vec<String> = ["user_id", "title"].iter().map(|s| s.to_string()).collect();
    assert!(!needs_title_column(&new));
    assert!(has_column(&new, "user_id"));
    assert!(!has_column(&new, "summary"));
    assert_eq!(Memory::at("/tmp/a.db").path(), "/tmp/a.db");
}

#[test]
fn history_command_takes_an_optional_limit() {
    assert_eq!(parse_command("/history"), ReplCommand::History(None));
    assert_eq!(parse_command("/history 100"), ReplCommand::History(Some(100)));
    assert_eq!(parse_command("  /history   7 "), ReplCommand::History(Some(7)));
    assert_eq!(
        parse_command("/history many"),
        ReplCommand::Unknown("/history many".into())
    );
    assert_eq!(
        parse_command("/history 1 2"),
        ReplCommand::Unknown("/history 1 2".into())
    );
    assert!(HELP_TEXT.contains("/history [limit]"));
    assert!(HELP_TEXT.contains("/paste"));
}

fn at(seq: i64, message: ChatMessage) -> StoredMessage {
    StoredMessage { seq, message }
}

#[test]
fn restored_history_shows_the_latest_user_and_agent_messages() {
    assert_eq!(history_text(&[], HISTORY_LIMIT), "No conversation history.\n");
    let stored = vec![
        at(1, ChatMessage::user("first question")),
        at(2, ChatMessage::tool("call-1", "{\"ok\":true}")),
        at(3, ChatMessage::assistant("first answer")),
        at(4, ChatMessage::user("   ")),
        at(5, ChatMessage::user("second question")),
        at(6, ChatMessage::assistant("second answer")),
    ];
    assert_eq!(
        history_text(&stored, HISTORY_LIMIT),
        "Conversation history:\nYou: first question\nAgent: first answer\n\
         You: second question\nAgent: second answer\n"
    );
    assert_eq!(
        history_text(&stored, 2),
        "Conversation history:\nYou: second question\nAgent: second answer\n"
    );
    assert_eq!(history_text(&stored, 0), "No conversation history.\n");
    assert_eq!(HISTORY_LIMIT, 20);
}
