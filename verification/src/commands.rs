//! The REPL's slash commands.

use vstd::prelude::*;

use crate::permission::{mode_of_name, PermissionMode};
use crate::text::{
    chars_eq_str, chars_of, has_prefix, parse_nat_spec, parse_usize, split_whitespace, string_of,
    trim, trim_spec, views, words,
};

verus! {

/// One line of REPL input, read as a message or a slash command.
#[derive(Debug, Clone, PartialEq, Eq)]
pub enum ReplCommand {
    Message(String),
    New,
    Resume(Option<String>),
    Sessions,
    Permission(Option<PermissionMode>),
    Config,
    Trace(bool),
    Status,
    Help,
    Exit,
    Paste,
    History(Option<usize>),
    Unknown(String),
}

/// The abstract form of a command, with its texts as character sequences.
pub enum CommandView {
    Message(Seq<char>),
    New,
    Resume(Option<Seq<char>>),
    Sessions,
    Permission(Option<PermissionMode>),
    Config,
    Trace(bool),
    Status,
    Help,
    Exit,
    Paste,
    History(Option<nat>),
    Unknown(Seq<char>),
}

impl View for ReplCommand {
    type V = CommandView;

    open spec fn view(&self) -> CommandView {
        match self {
            ReplCommand::Message(m) => CommandView::Message(m@),
            ReplCommand::New => CommandView::New,
            ReplCommand::Resume(s) => CommandView::Resume(crate::model::opt_view(*s)),
            ReplCommand::Sessions => CommandView::Sessions,
            ReplCommand::Permission(p) => CommandView::Permission(*p),
            ReplCommand::Config => CommandView::Config,
            ReplCommand::Trace(b) => CommandView::Trace(*b),
            ReplCommand::Status => CommandView::Status,
            ReplCommand::Help => CommandView::Help,
            ReplCommand::Exit => CommandView::Exit,
            ReplCommand::Paste => CommandView::Paste,
            ReplCommand::History(n) => CommandView::History(
                match n {
                    Some(k) => Some(*k as nat),
                    None => None,
                },
            ),
            ReplCommand::Unknown(u) => CommandView::Unknown(u@),
        }
    }
}

/// What a slash command with name `cmd` and optional argument `arg` means;
/// `line` is the whole trimmed input, kept for unknown commands.
pub open spec fn slash_command(cmd: Seq<char>, arg: Option<Seq<char>>, line: Seq<char>) -> CommandView {
    if cmd == "/new"@ {
        CommandView::New
    } else if cmd == "/resume"@ {
        CommandView::Resume(arg)
    } else if cmd == "/sessions"@ {
        CommandView::Sessions
    } else if cmd == "/permission"@ {
        match arg {
            None => CommandView::Permission(None),
            Some(a) => match mode_of_name(a) {
                Some(m) => CommandView::Permission(Some(m)),
                None => CommandView::Unknown(line),
            },
        }
    } else if cmd == "/config"@ {
        CommandView::Config
    } else if cmd == "/trace"@ {
        match arg {
            Some(a) => if a == "on"@ {
                CommandView::Trace(true)
            } else if a == "off"@ {
                CommandView::Trace(false)
            } else {
                CommandView::Unknown(line)
            },
            None => CommandView::Unknown(line),
        }
    } else if cmd == "/status"@ {
        CommandView::Status
    } else if cmd == "/help"@ {
        CommandView::Help
    } else if cmd == "/exit"@ || cmd == "/quit"@ {
        CommandView::Exit
    } else if cmd == "/paste"@ {
        CommandView::Paste
    } else if cmd == "/history"@ {
        match arg {
            None => CommandView::History(None),
            Some(a) => match parse_nat_spec(a) {
                Some(n) => if n <= usize::MAX {
                    CommandView::History(Some(n))
                } else {
                    CommandView::Unknown(line)
                },
                None => CommandView::Unknown(line),
            },
        }
    } else {
        CommandView::Unknown(line)
    }
}

/// How a line of input is read: after trimming, text that does not start with
/// `/` is a message; otherwise its first word names the command, a second word
/// is its argument, and a third word makes the line unknown.
pub open spec fn command_of(input: Seq<char>) -> CommandView {
    let line = trim_spec(input);
    if !(line.len() > 0 && line[0] == '/') {
        CommandView::Message(line)
    } else {
        let w = words(line);
        if w.len() > 2 {
            CommandView::Unknown(line)
        } else {
            let cmd = if w.len() > 0 {
                w[0]
            } else {
                Seq::empty()
            };
            let arg = if w.len() > 1 {
                Some(w[1])
            } else {
                None
            };
            slash_command(cmd, arg, line)
        }
    }
}

/// Reads one line of REPL input.
pub fn parse_command(input: &str) -> (r: ReplCommand)
    ensures
        r@ == command_of(input@),
{
    let chars = chars_of(input);
    let line = trim(&chars);
    if !(line.len() > 0 && line[0] == '/') {
        return ReplCommand::Message(string_of(&line));
    }
    let w = split_whitespace(&line);
    proof {
        assert(views(w@).len() == w@.len());
    }
    if w.len() > 2 {
        return ReplCommand::Unknown(string_of(&line));
    }
    let empty: Vec<char> = Vec::new();
    let cmd: &Vec<char> = if w.len() > 0 {
        &w[0]
    } else {
        &empty
    };
    assert(cmd@ == (if w@.len() > 0 {
        views(w@)[0]
    } else {
        Seq::<char>::empty()
    }));
    let has_arg = w.len() > 1;
    let ghost arg = if w@.len() > 1 {
        Some(views(w@)[1])
    } else {
        None::<Seq<char>>
    };
    let unknown = ReplCommand::Unknown(string_of(&line));
    if chars_eq_str(cmd, "/new") {
        ReplCommand::New
    } else if chars_eq_str(cmd, "/resume") {
        if has_arg {
            ReplCommand::Resume(Some(string_of(&w[1])))
        } else {
            ReplCommand::Resume(None)
        }
    } else if chars_eq_str(cmd, "/sessions") {
        ReplCommand::Sessions
    } else if chars_eq_str(cmd, "/permission") {
        if has_arg {
            match PermissionMode::parse_chars(&w[1]) {
                Some(m) => ReplCommand::Permission(Some(m)),
                None => unknown,
            }
        } else {
            ReplCommand::Permission(None)
        }
    } else if chars_eq_str(cmd, "/config") {
        ReplCommand::Config
    } else if chars_eq_str(cmd, "/trace") {
        if has_arg && chars_eq_str(&w[1], "on") {
            ReplCommand::Trace(true)
        } else if has_arg && chars_eq_str(&w[1], "off") {
            ReplCommand::Trace(false)
        } else {
            unknown
        }
    } else if chars_eq_str(cmd, "/status") {
        ReplCommand::Status
    } else if chars_eq_str(cmd, "/help") {
        ReplCommand::Help
    } else if chars_eq_str(cmd, "/exit") || chars_eq_str(cmd, "/quit") {
        ReplCommand::Exit
    } else if chars_eq_str(cmd, "/paste") {
        ReplCommand::Paste
    } else if chars_eq_str(cmd, "/history") {
        if has_arg {
            match parse_usize(&w[1]) {
                Some(n) => ReplCommand::History(Some(n)),
                None => unknown,
            }
        } else {
            ReplCommand::History(None)
        }
    } else {
        unknown
    }
}

} // verus!
