//! The interactive shell's decisions and texts: how a line of input is
//! handled (including multi-line paste mode), the session title taken from
//! the first message, choosing a session to resume, and what the shell
//! writes. The application reads the terminal, talks to session memory and
//! runs the agent.

use vstd::prelude::*;

use crate::agent::{is_not_blank, not_blank};
use crate::commands::{command_of, parse_command, CommandView, ReplCommand};
use crate::error::AgentError;
use crate::context::{message_views, stored_views};
use crate::memory::{SessionInfo, StoredMessage};
use crate::model::{ChatMessage, ChatMessageView};
use crate::model::owned;
use crate::paths::{friendly_path, friendly_spec};
use crate::permission::{mode_name, PermissionMode};
use crate::text::{
    chars_eq_str, chars_of, decimal, decimal_chars, hex_chars, hexadecimal, parse_nat_spec, parse_usize, push_chars,
    push_str, slice_vec, split_whitespace, string_of, trim, trim_spec, views, words,
};

verus! {

/// The longest session title, in characters.
pub const TITLE_LIMIT: usize = 48;

/// What `/help` shows.
pub const HELP_TEXT: &'static str = "/new                         create a new session\n/resume [session-id]         list or resume saved sessions\n/sessions                    list recent sessions\n/history [limit]             show restored conversation history\n/permission [mode]           show or change execution permission\n/paste                       enter a multi-line request; finish with `.`\n/trace on|off                toggle detailed tool output\n/status                      show active session state\n/config                      show the configuration location\n/help                        show commands\n/exit                        quit\n";

/// `parts` joined with `sep` between consecutive parts.
pub open spec fn join_with(parts: Seq<Seq<char>>, sep: Seq<char>) -> Seq<char>
    decreases parts.len(),
{
    if parts.len() == 0 {
        Seq::empty()
    } else if parts.len() == 1 {
        parts[0]
    } else {
        join_with(parts.drop_last(), sep) + sep + parts.last()
    }
}

/// Joins character vectors with a separator.
fn join_chars(parts: &Vec<Vec<char>>, sep: char) -> (r: Vec<char>)
    ensures
        r@ == join_with(views(parts@), seq![sep]),
{
    let mut out: Vec<char> = Vec::new();
    let mut i: usize = 0;
    while i < parts.len()
        invariant
            i <= parts.len(),
            out@ == join_with(views(parts@).take(i as int), seq![sep]),
        decreases parts.len() - i,
    {
        let ghost before = out@;
        if i > 0 {
            out.push(sep);
        }
        let mut k: usize = 0;
        let ghost mid = out@;
        while k < parts[i].len()
            invariant
                i < parts.len(),
                k <= parts[i as int].len(),
                out@ == mid + parts[i as int]@.take(k as int),
            decreases parts[i as int].len() - k,
        {
            out.push(parts[i][k]);
            assert(parts[i as int]@.take(k + 1) =~= parts[i as int]@.take(k as int).push(
                parts[i as int]@[k as int],
            ));
            k = k + 1;
        }
        assert(parts[i as int]@.take(parts[i as int]@.len() as int) =~= parts[i as int]@);
        let ghost taken = views(parts@).take(i + 1);
        assert(taken.drop_last() =~= views(parts@).take(i as int));
        assert(taken.last() == parts[i as int]@);
        if i == 0 {
            assert(out@ =~= join_with(taken, seq![sep]));
        } else {
            assert(out@ =~= join_with(taken, seq![sep]));
        }
        i = i + 1;
    }
    assert(views(parts@).take(parts@.len() as int) =~= views(parts@));
    out
}

/// At most the first `n` characters of `t`.
pub open spec fn first_n(t: Seq<char>, n: nat) -> Seq<char> {
    if t.len() <= n {
        t
    } else {
        t.take(n as int)
    }
}

/// The title a session gets from its first message: the message's words
/// joined by single spaces, cut to 48 characters.
pub open spec fn title_spec(message: Seq<char>) -> Seq<char> {
    first_n(join_with(words(message), seq![' ']), TITLE_LIMIT as nat)
}

/// The title a session gets from its first message.
pub fn session_title(message: &str) -> (r: String)
    ensures
        r@ == title_spec(message@),
        r@.len() <= TITLE_LIMIT,
{
    let w = split_whitespace(&chars_of(message));
    let joined = join_chars(&w, ' ');
    let n = if joined.len() <= TITLE_LIMIT {
        joined.len()
    } else {
        TITLE_LIMIT
    };
    let cut = slice_vec(&joined, 0, n);
    assert(cut@ =~= title_spec(message@));
    string_of(&cut)
}

/// Which session a `/resume` selection names among the listed `ids`: a
/// number picks the entry with that position (counted from 1, with 0 taken
/// as 1) and is refused when there is no such entry; any other text is a
/// session id itself.
pub open spec fn selection_spec(ids: Seq<Seq<char>>, selection: Seq<char>) -> Option<Seq<char>> {
    let t = trim_spec(selection);
    match parse_nat_spec(t) {
        Some(n) => if n <= usize::MAX {
            let index = if n == 0 {
                0
            } else {
                n - 1
            };
            if index < ids.len() {
                Some(ids[index])
            } else {
                None
            }
        } else {
            Some(t)
        },
        None => Some(t),
    }
}

/// The ids of listed sessions.
pub open spec fn session_ids(sessions: Seq<SessionInfo>) -> Seq<Seq<char>> {
    sessions.map_values(|s: SessionInfo| s.session_id@)
}

/// The session that a `/resume` selection names, or a configuration error
/// when the number is out of range.
pub fn resume_choice(sessions: &[SessionInfo], selection: &str) -> (r: Result<String, AgentError>)
    ensures
        match selection_spec(session_ids(sessions@), selection@) {
            Some(id) => r matches Ok(s) && s@ == id,
            None => r matches Err(e) && crate::error::is_config_error(e, "invalid session selection"@),
        },
{
    let t = trim(&chars_of(selection));
    match parse_usize(&t) {
        Some(n) => {
            let index = if n == 0 {
                0
            } else {
                n - 1
            };
            if index < sessions.len() {
                Ok(sessions[index].session_id.clone())
            } else {
                Err(AgentError::Config(owned("invalid session selection")))
            }
        },
        None => Ok(string_of(&t)),
    }
}

/// How a session's title is shown.
pub open spec fn shown_title(title: Seq<char>) -> Seq<char> {
    if title.len() == 0 {
        "(untitled)"@
    } else {
        title
    }
}

/// The line of the session at `index` in a listing.
pub open spec fn session_line(index: nat, s: SessionInfo) -> Seq<char> {
    "  "@ + decimal(index + 1) + ". "@ + s.session_id@ + "  "@ + shown_title(s.title@) + "\n"@
}

/// The lines of the first `n` sessions of a listing.
pub open spec fn session_lines(sessions: Seq<SessionInfo>, n: int) -> Seq<char>
    decreases n,
{
    if n <= 0 || n > sessions.len() {
        Seq::empty()
    } else {
        session_lines(sessions, n - 1) + session_line((n - 1) as nat, sessions[n - 1])
    }
}

/// A listing of sessions, numbered from 1.
pub fn session_list_text(sessions: &[SessionInfo]) -> (r: String)
    requires
        sessions@.len() < u64::MAX,
    ensures
        r@ == "Recent sessions:\n"@ + session_lines(sessions@, sessions@.len() as int),
{
    let mut out = owned("Recent sessions:\n");
    let ghost head = out@;
    let mut i: usize = 0;
    while i < sessions.len()
        invariant
            i <= sessions.len() < u64::MAX,
            out@ == head + session_lines(sessions@, i as int),
        decreases sessions.len() - i,
    {
        push_str(&mut out, "  ");
        push_chars(&mut out, &decimal_chars((i + 1) as u64));
        push_str(&mut out, ". ");
        push_str(&mut out, sessions[i].session_id.as_str());
        push_str(&mut out, "  ");
        if chars_of(sessions[i].title.as_str()).len() == 0 {
            push_str(&mut out, "(untitled)");
        } else {
            push_str(&mut out, sessions[i].title.as_str());
        }
        push_str(&mut out, "\n");
        assert(out@ =~= head + session_lines(sessions@, i + 1));
        i = i + 1;
    }
    out
}

/// The prompt shown before each line of input.
pub fn prompt_text(session_id: &str, permission: PermissionMode) -> (r: String)
    ensures
        r@ == "\n["@ + session_id@ + " | "@ + mode_name(permission) + "] ❯ "@,
{
    let mut out = owned("\n[");
    push_str(&mut out, session_id);
    push_str(&mut out, " | ");
    push_str(&mut out, permission.name());
    push_str(&mut out, "] ❯ ");
    out
}

/// The greeting shown when the shell starts.
pub fn banner_text(session_id: &str, permission: PermissionMode, workspace: &str) -> (r: String)
    ensures
        r@ == "Mini Coding Agent\nSession: "@ + session_id@ + "\nPermission: "@ + mode_name(
            permission,
        ) + "\nWorkspace: "@ + friendly_spec(workspace@) + "\nType /help for commands.\n"@,
{
    let mut out = owned("Mini Coding Agent\nSession: ");
    push_str(&mut out, session_id);
    push_str(&mut out, "\nPermission: ");
    push_str(&mut out, permission.name());
    push_str(&mut out, "\nWorkspace: ");
    push_str(&mut out, friendly_path(workspace).as_str());
    push_str(&mut out, "\nType /help for commands.\n");
    out
}

/// What `/status` shows.
pub fn status_text(
    session_id: &str,
    title: &str,
    permission: PermissionMode,
    workspace: &str,
    verbose: bool,
) -> (r: String)
    ensures
        r@ == "Session: "@ + session_id@ + "\nTitle: "@ + shown_title(title@) + "\nPermission: "@
            + mode_name(permission) + "\nWorkspace: "@ + friendly_spec(workspace@) + "\nTrace: "@
            + (if verbose {
            "on"@
        } else {
            "off"@
        }) + "\n"@,
{
    let mut out = owned("Session: ");
    push_str(&mut out, session_id);
    push_str(&mut out, "\nTitle: ");
    if chars_of(title).len() == 0 {
        push_str(&mut out, "(untitled)");
    } else {
        push_str(&mut out, title);
    }
    push_str(&mut out, "\nPermission: ");
    push_str(&mut out, permission.name());
    push_str(&mut out, "\nWorkspace: ");
    push_str(&mut out, friendly_path(workspace).as_str());
    push_str(&mut out, "\nTrace: ");
    push_str(
        &mut out,
        if verbose {
            "on"
        } else {
            "off"
        },
    );
    push_str(&mut out, "\n");
    out
}

/// How many messages `/resume` and `/history` show unless told otherwise.
pub const HISTORY_LIMIT: usize = 20;

/// Whether a stored message appears in the shown history: a user or
/// assistant message with non-blank text. Reasoning and tool payloads are
/// never shown.
pub open spec fn shown_in_history(m: ChatMessageView) -> bool {
    &&& (m.role == "user"@ || m.role == "assistant"@)
    &&& m.content matches Some(c) && not_blank(c)
}

/// The messages among the first `n` that appear in the history, in order.
pub open spec fn history_from(ms: Seq<ChatMessageView>, n: int) -> Seq<ChatMessageView>
    decreases n,
{
    if n <= 0 || n > ms.len() {
        Seq::empty()
    } else if shown_in_history(ms[n - 1]) {
        history_from(ms, n - 1).push(ms[n - 1])
    } else {
        history_from(ms, n - 1)
    }
}

/// Every message of the shown history is one that is shown.
proof fn lemma_history_from_shown(ms: Seq<ChatMessageView>, n: int)
    ensures
        forall|q: int|
            0 <= q < history_from(ms, n).len() ==> shown_in_history(#[trigger] history_from(ms, n)[q]),
    decreases n,
{
    if n > 0 && n <= ms.len() {
        lemma_history_from_shown(ms, n - 1);
        let prev = history_from(ms, n - 1);
        let cur = history_from(ms, n);
        assert forall|q: int| 0 <= q < cur.len() implies shown_in_history(#[trigger] cur[q]) by {
            if q < prev.len() {
                assert(cur[q] == prev[q]);
            }
        }
    }
}

/// One line of the shown history: who spoke, then the text.
pub open spec fn history_line(m: ChatMessageView) -> Seq<char> {
    (if m.role == "user"@ {
        "You: "@
    } else {
        "Agent: "@
    }) + m.content->0 + "\n"@
}

/// The lines of the first `n` shown messages.
pub open spec fn history_lines(ms: Seq<ChatMessageView>, n: int) -> Seq<char>
    decreases n,
{
    if n <= 0 || n > ms.len() {
        Seq::empty()
    } else {
        history_lines(ms, n - 1) + history_line(ms[n - 1])
    }
}

/// The last `limit` shown messages of a transcript.
pub open spec fn history_tail(ms: Seq<ChatMessageView>, limit: nat) -> Seq<ChatMessageView> {
    let all = history_from(ms, ms.len() as int);
    if all.len() <= limit {
        all
    } else {
        all.skip(all.len() - limit)
    }
}

/// The restored history as shown: the last `limit` user and agent messages,
/// oldest first, or a note that there is none.
pub open spec fn history_spec(ms: Seq<ChatMessageView>, limit: nat) -> Seq<char> {
    let shown = history_tail(ms, limit);
    if shown.len() == 0 {
        "No conversation history.\n"@
    } else {
        "Conversation history:\n"@ + history_lines(shown, shown.len() as int)
    }
}

/// Whether a stored message appears in the shown history (executable).
fn is_shown(m: &ChatMessage) -> (r: bool)
    ensures
        r == shown_in_history(m@),
{
    let role = chars_of(m.role.as_str());
    let speaker = chars_eq_str(&role, "user") || chars_eq_str(&role, "assistant");
    match &m.content {
        Some(c) => speaker && is_not_blank(c.as_str()),
        None => false,
    }
}

/// The restored history of a transcript as the shell shows it.
pub fn history_text(stored: &[StoredMessage], limit: usize) -> (r: String)
    ensures
        r@ == history_spec(stored_views(stored@), limit as nat),
{
    let ghost ms = stored_views(stored@);
    let mut picked: Vec<ChatMessage> = Vec::new();
    let mut i: usize = 0;
    while i < stored.len()
        invariant
            i <= stored.len(),
            ms == stored_views(stored@),
            message_views(picked@) == history_from(ms, i as int),
        decreases stored.len() - i,
    {
        if is_shown(&stored[i].message) {
            let ghost before = picked@;
            picked.push(stored[i].message.copy());
            assert(message_views(picked@) =~= message_views(before).push(ms[i as int]));
        }
        i = i + 1;
    }
    let ghost all = message_views(picked@);
    proof {
        lemma_history_from_shown(ms, stored@.len() as int);
    }
    let start = if picked.len() <= limit {
        0
    } else {
        picked.len() - limit
    };
    let ghost shown = history_tail(ms, limit as nat);
    assert(shown =~= all.skip(start as int));
    if start >= picked.len() {
        return owned("No conversation history.\n");
    }
    let mut out = owned("Conversation history:\n");
    let ghost head = out@;
    let mut k: usize = start;
    while k < picked.len()
        invariant
            start <= k <= picked.len(),
            all == message_views(picked@),
            shown == all.skip(start as int),
            out@ == head + history_lines(shown, k - start),
            forall|q: int| 0 <= q < all.len() ==> shown_in_history(#[trigger] all[q]),
        decreases picked.len() - k,
    {
        let m = &picked[k];
        assert(all[k as int] == m@);
        assert(shown[k - start] == m@);
        if chars_eq_str(&chars_of(m.role.as_str()), "user") {
            push_str(&mut out, "You: ");
        } else {
            push_str(&mut out, "Agent: ");
        }
        match &m.content {
            Some(c) => push_str(&mut out, c.as_str()),
            None => {},
        }
        push_str(&mut out, "\n");
        assert(out@ =~= head + history_lines(shown, k + 1 - start));
        k = k + 1;
    }
    out
}

/// `prefix`, then `middle`, then `suffix`: the shape of the shell's one-line
/// reports (`Created session ….`, `Unknown command: ….`, and the like).
pub fn framed(prefix: &str, middle: &str, suffix: &str) -> (r: String)
    ensures
        r@ == prefix@ + middle@ + suffix@,
{
    let mut out = owned(prefix);
    push_str(&mut out, middle);
    push_str(&mut out, suffix);
    out
}

/// A new session's id from the clock, the process and a per-process
/// counter: `s-<millis>-<process>-<counter>`, each in hexadecimal.
pub open spec fn session_id_spec(millis: u64, process: u32, counter: u64) -> Seq<char> {
    "s-"@ + hexadecimal(millis as nat) + seq!['-'] + hexadecimal(process as nat) + seq!['-']
        + hexadecimal(counter as nat)
}

/// A new session's id.
pub fn session_id_text(millis: u64, process: u32, counter: u64) -> (r: String)
    ensures
        r@ == session_id_spec(millis, process, counter),
{
    let mut out = owned("s-");
    push_chars(&mut out, &hex_chars(millis));
    crate::text::push_char(&mut out, '-');
    push_chars(&mut out, &hex_chars(process as u64));
    crate::text::push_char(&mut out, '-');
    push_chars(&mut out, &hex_chars(counter));
    out
}

/// The shell's terminal: where input lines come from and output goes.
pub trait Terminal {
    /// The next line without its line ending, or `None` at the end of input.
    fn read_line(&mut self) -> Result<Option<String>, AgentError>;

    /// Writes text as it is.
    fn write(&mut self, text: &str) -> Result<(), AgentError>;
}

/// What one line of input asks the shell to do.
pub enum ReplAction {
    /// Nothing: the line was blank.
    Ignore,
    /// Send this request to the agent.
    Submit(String),
    /// The line was taken into a multi-line request that is not finished.
    Collect,
    /// Perform this command.
    Run(ReplCommand),
    /// The input ended: leave the shell.
    Quit,
}

/// The request that finished paste mode holds: its lines joined by newlines.
pub open spec fn pasted(lines: Seq<Seq<char>>) -> Seq<char> {
    join_with(lines, seq!['\n'])
}

/// Whether a line ends paste mode.
pub open spec fn ends_paste(line: Seq<char>) -> bool {
    trim_spec(line) == "."@
}

/// Whether `r` submits exactly `text`.
pub open spec fn submits(r: ReplAction, text: Seq<char>) -> bool {
    r matches ReplAction::Submit(t) && t@ == text
}

/// Whether `r` runs the command `c`.
pub open spec fn runs(r: ReplAction, c: CommandView) -> bool {
    r matches ReplAction::Run(x) && x@ == c
}

/// What a line means outside paste mode.
pub open spec fn normal_action(r: ReplAction, line: Seq<char>) -> bool {
    match command_of(line) {
        CommandView::Message(m) => if not_blank(m) {
            submits(r, m)
        } else {
            r is Ignore
        },
        CommandView::Paste => r is Collect,
        c => runs(r, c),
    }
}

/// The shell's reading of its input, line by line.
pub struct ReplInput {
    paste: Option<Vec<String>>,
}

impl ReplInput {
    /// Input outside paste mode.
    pub fn new() -> (r: ReplInput)
        ensures
            r.paste_view() is None,
    {
        ReplInput { paste: None }
    }

    /// The lines collected so far in paste mode, or `None` outside it.
    pub closed spec fn paste_view(&self) -> Option<Seq<Seq<char>>> {
        match self.paste {
            Some(lines) => Some(lines@.map_values(|l: String| l@)),
            None => None,
        }
    }

    /// Whether paste mode is on.
    pub fn pasting(&self) -> (r: bool)
        ensures
            r == self.paste_view() is Some,
    {
        self.paste.is_some()
    }

    /// Handles one line of input (`None` when the input ended). Outside
    /// paste mode a blank message is ignored, a message is submitted,
    /// `/paste` starts collecting and any other command is run. In paste mode
    /// each line is collected until a line holding only `.`, which submits
    /// the collected lines as one request joined by newlines (nothing when
    /// they are blank). The end of input leaves the shell and drops what was
    /// collected.
    pub fn on_line(&mut self, line: Option<String>) -> (r: ReplAction)
        ensures
            match line {
                None => r is Quit && final(self).paste_view() is None,
                Some(l) => match old(self).paste_view() {
                    Some(lines) => if ends_paste(l@) {
                        final(self).paste_view() is None && if not_blank(pasted(lines)) {
                            submits(r, pasted(lines))
                        } else {
                            r is Ignore
                        }
                    } else {
                        r is Collect && final(self).paste_view() == Some(lines.push(l@))
                    },
                    None => normal_action(r, l@) && final(self).paste_view() == (if command_of(
                        l@,
                    ) is Paste {
                        Some(Seq::<Seq<char>>::empty())
                    } else {
                        None::<Seq<Seq<char>>>
                    }),
                },
            },
    {
        let l = match line {
            None => {
                self.paste = None;
                return ReplAction::Quit;
            },
            Some(l) => l,
        };
        match self.paste.take() {
            Some(mut lines) => {
                let ghost collected = lines@.map_values(|s: String| s@);
                if chars_eq_str(&trim(&chars_of(l.as_str())), ".") {
                    let mut parts: Vec<Vec<char>> = Vec::new();
                    let mut i: usize = 0;
                    while i < lines.len()
                        invariant
                            i <= lines.len(),
                            collected == lines@.map_values(|s: String| s@),
                            views(parts@) =~= collected.take(i as int),
                        decreases lines.len() - i,
                    {
                        let ghost before = views(parts@);
                        let c = chars_of(lines[i].as_str());
                        parts.push(c);
                        assert(views(parts@) =~= before.push(c@));
                        assert(c@ == collected[i as int]);
                        assert(collected.take(i + 1) =~= collected.take(i as int).push(
                            collected[i as int],
                        ));
                        i = i + 1;
                    }
                    assert(collected.take(lines.len() as int) =~= collected);
                    let text = join_chars(&parts, '\n');
                    let request = string_of(&text);
                    if is_not_blank(request.as_str()) {
                        ReplAction::Submit(request)
                    } else {
                        ReplAction::Ignore
                    }
                } else {
                    lines.push(l);
                    assert(lines@.map_values(|s: String| s@) =~= collected.push(l@));
                    self.paste = Some(lines);
                    ReplAction::Collect
                }
            },
            None => {
                let command = parse_command(l.as_str());
                match command {
                    ReplCommand::Message(m) => {
                        if is_not_blank(m.as_str()) {
                            ReplAction::Submit(m)
                        } else {
                            ReplAction::Ignore
                        }
                    },
                    ReplCommand::Paste => {
                        let lines: Vec<String> = Vec::new();
                        assert(lines@.map_values(|s: String| s@) =~= Seq::<Seq<char>>::empty());
                        self.paste = Some(lines);
                        ReplAction::Collect
                    },
                    c => ReplAction::Run(c),
                }
            },
        }
    }
}

} // verus!
