//! The built-in tools: their names, argument rules, effects and the parts of
//! their work that compute rather than touch the host.

pub mod args;
pub mod calculator;
pub mod edit_file;
pub mod read_file;
pub mod registry;
pub mod search;
pub mod shell;
pub mod todo;

use vstd::prelude::*;

use crate::json::Json;
use crate::memory::Memory;
use crate::model::{owned, SessionKey, ToolDefinition, ToolFunctionSpec};

pub use calculator::CalculatorTool;
pub use edit_file::EditFileTool;
pub use read_file::ReadFileTool;
pub use registry::ToolRegistry;
pub use search::SearchTool;
pub use shell::ShellTool;
pub use todo::TodoTool;

verus! {

/// Whether a tool call only observes or may change the host or the session.
#[derive(Debug, Clone, Copy, PartialEq, Eq, Structural)]
pub enum ToolEffect {
    ReadOnly,
    Mutating,
}

/// What a tool execution works on: the session, the workspace directory and
/// session memory.
#[derive(Debug, Clone)]
pub struct ToolContext {
    pub session: SessionKey,
    pub workspace: String,
    pub memory: std::sync::Arc<Memory>,
}

/// A tool call that passed parsing and validation, waiting to run.
#[derive(Debug, PartialEq)]
pub struct PreparedCall {
    /// Position of the call in the model's batch.
    pub index: usize,
    pub id: String,
    pub name: String,
    pub arguments: Json,
    pub effect: ToolEffect,
}

/// The six tools that every registry offers.
#[derive(Debug, Clone, Copy, PartialEq, Eq, Structural)]
pub enum StandardTool {
    Shell,
    ReadFile,
    EditFile,
    Calculator,
    Search,
    Todo,
}

/// A tool's registered name.
pub open spec fn tool_name(t: StandardTool) -> Seq<char> {
    match t {
        StandardTool::Shell => "shell"@,
        StandardTool::ReadFile => "read_file"@,
        StandardTool::EditFile => "edit_file"@,
        StandardTool::Calculator => "calculator"@,
        StandardTool::Search => "search"@,
        StandardTool::Todo => "todo"@,
    }
}

/// A tool's description.
pub open spec fn tool_description(t: StandardTool) -> Seq<char> {
    match t {
        StandardTool::Shell => shell::DESCRIPTION@,
        StandardTool::ReadFile => read_file::DESCRIPTION@,
        StandardTool::EditFile => edit_file::DESCRIPTION@,
        StandardTool::Calculator => calculator::DESCRIPTION@,
        StandardTool::Search => search::DESCRIPTION@,
        StandardTool::Todo => todo::DESCRIPTION@,
    }
}

/// The tool registered under `name`, if any.
pub open spec fn tool_named(name: Seq<char>) -> Option<StandardTool> {
    if name == "shell"@ {
        Some(StandardTool::Shell)
    } else if name == "read_file"@ {
        Some(StandardTool::ReadFile)
    } else if name == "edit_file"@ {
        Some(StandardTool::EditFile)
    } else if name == "calculator"@ {
        Some(StandardTool::Calculator)
    } else if name == "search"@ {
        Some(StandardTool::Search)
    } else if name == "todo"@ {
        Some(StandardTool::Todo)
    } else {
        None
    }
}

/// The result of validating a tool's arguments.
pub open spec fn tool_validation(t: StandardTool, args: Json) -> Result<(), Seq<char>> {
    match t {
        StandardTool::Shell => shell::shell_validation(args),
        StandardTool::ReadFile => read_file::read_validation(args),
        StandardTool::EditFile => edit_file::edit_validation(args),
        StandardTool::Calculator => calculator::calculator_validation(args),
        StandardTool::Search => search::search_validation(args),
        StandardTool::Todo => todo::todo_validation(args),
    }
}

/// The effect of running a tool with the given arguments.
pub open spec fn tool_effect(t: StandardTool, args: Json) -> ToolEffect {
    match t {
        StandardTool::Shell => ToolEffect::Mutating,
        StandardTool::EditFile => ToolEffect::Mutating,
        StandardTool::ReadFile => ToolEffect::ReadOnly,
        StandardTool::Calculator => ToolEffect::ReadOnly,
        StandardTool::Search => ToolEffect::ReadOnly,
        StandardTool::Todo => todo::todo_effect(args),
    }
}

impl StandardTool {
    /// All standard tools, in registration order.
    pub fn all() -> (r: Vec<StandardTool>)
        ensures
            r@ == seq![
                StandardTool::Shell,
                StandardTool::ReadFile,
                StandardTool::EditFile,
                StandardTool::Calculator,
                StandardTool::Search,
                StandardTool::Todo,
            ],
    {
        let mut r = Vec::new();
        r.push(StandardTool::Shell);
        r.push(StandardTool::ReadFile);
        r.push(StandardTool::EditFile);
        r.push(StandardTool::Calculator);
        r.push(StandardTool::Search);
        r.push(StandardTool::Todo);
        r
    }

    /// The tool registered under `name`, if any.
    pub fn named(name: &str) -> (r: Option<StandardTool>)
        ensures
            r == tool_named(name@),
    {
        let c = crate::text::chars_of(name);
        if crate::text::chars_eq_str(&c, "shell") {
            Some(StandardTool::Shell)
        } else if crate::text::chars_eq_str(&c, "read_file") {
            Some(StandardTool::ReadFile)
        } else if crate::text::chars_eq_str(&c, "edit_file") {
            Some(StandardTool::EditFile)
        } else if crate::text::chars_eq_str(&c, "calculator") {
            Some(StandardTool::Calculator)
        } else if crate::text::chars_eq_str(&c, "search") {
            Some(StandardTool::Search)
        } else if crate::text::chars_eq_str(&c, "todo") {
            Some(StandardTool::Todo)
        } else {
            None
        }
    }

    /// The tool's registered name.
    pub fn name(&self) -> (r: &'static str)
        ensures
            r@ == tool_name(*self),
    {
        match self {
            StandardTool::Shell => "shell",
            StandardTool::ReadFile => "read_file",
            StandardTool::EditFile => "edit_file",
            StandardTool::Calculator => "calculator",
            StandardTool::Search => "search",
            StandardTool::Todo => "todo",
        }
    }

    /// The standard tools in the order in which the model sees them: sorted
    /// by name.
    pub fn by_name() -> (r: Vec<StandardTool>)
        ensures
            r@ == seq![
                StandardTool::Calculator,
                StandardTool::EditFile,
                StandardTool::ReadFile,
                StandardTool::Search,
                StandardTool::Shell,
                StandardTool::Todo,
            ],
    {
        let mut r = Vec::new();
        r.push(StandardTool::Calculator);
        r.push(StandardTool::EditFile);
        r.push(StandardTool::ReadFile);
        r.push(StandardTool::Search);
        r.push(StandardTool::Shell);
        r.push(StandardTool::Todo);
        r
    }

    /// The tool as offered to the model: a function with the tool's name,
    /// description and parameter schema.
    pub fn definition(&self, parameters: Json) -> (d: ToolDefinition)
        ensures
            d.kind@ == "function"@,
            d.function.name@ == tool_name(*self),
            d.function.description@ == tool_description(*self),
            d.function.parameters == parameters,
    {
        ToolDefinition {
            kind: owned("function"),
            function: ToolFunctionSpec {
                name: owned(self.name()),
                description: owned(self.description()),
                parameters,
            },
        }
    }

    /// The description offered to the model.
    pub fn description(&self) -> (r: &'static str)
        ensures
            r@ == tool_description(*self),
    {
        match self {
            StandardTool::Shell => shell::DESCRIPTION,
            StandardTool::ReadFile => read_file::DESCRIPTION,
            StandardTool::EditFile => edit_file::DESCRIPTION,
            StandardTool::Calculator => calculator::DESCRIPTION,
            StandardTool::Search => search::DESCRIPTION,
            StandardTool::Todo => todo::DESCRIPTION,
        }
    }

    /// Checks a call's arguments; the error is the reason they were refused.
    pub fn validate(&self, args: &Json) -> (r: Result<(), String>)
        ensures
            match r {
                Ok(()) => tool_validation(*self, *args) is Ok,
                Err(e) => tool_validation(*self, *args) == Err::<(), Seq<char>>(e@),
            },
    {
        match self {
            StandardTool::Shell => ShellTool.validate(args),
            StandardTool::ReadFile => ReadFileTool.validate(args),
            StandardTool::EditFile => EditFileTool.validate(args),
            StandardTool::Calculator => CalculatorTool.validate(args),
            StandardTool::Search => SearchTool.validate(args),
            StandardTool::Todo => TodoTool.validate(args),
        }
    }

    /// Whether a call with these arguments only observes.
    pub fn effect(&self, args: &Json) -> (r: ToolEffect)
        ensures
            r == tool_effect(*self, *args),
    {
        match self {
            StandardTool::Todo => TodoTool.effect(args),
            StandardTool::Shell => ToolEffect::Mutating,
            StandardTool::EditFile => ToolEffect::Mutating,
            _ => ToolEffect::ReadOnly,
        }
    }
}

/// A tool the model can call: its name, its description, the check of its
/// arguments and the effect of a call. Running a tool touches the host and
/// belongs to the application.
pub trait Tool {
    /// The name the model calls the tool by, as a specification value.
    spec fn name_view(&self) -> Seq<char>;

    /// The name the model calls the tool by.
    fn name(&self) -> (r: &'static str)
        ensures
            r@ == self.name_view(),
    ;

    /// The description offered to the model.
    fn description(&self) -> &'static str;

    /// Checks a call's arguments; the error is the reason they were refused.
    fn validate(&self, args: &Json) -> Result<(), String>;

    /// Whether a call with these arguments only observes.
    fn effect(&self, args: &Json) -> ToolEffect;
}

impl Tool for StandardTool {
    open spec fn name_view(&self) -> Seq<char> {
        tool_name(*self)
    }

    fn name(&self) -> (r: &'static str)
        ensures
            r@ == tool_name(*self),
    {
        StandardTool::name(self)
    }

    fn description(&self) -> (r: &'static str)
        ensures
            r@ == tool_description(*self),
    {
        StandardTool::description(self)
    }

    fn validate(&self, args: &Json) -> (r: Result<(), String>)
        ensures
            validation_of(r) == tool_validation(*self, *args),
    {
        StandardTool::validate(self, args)
    }

    fn effect(&self, args: &Json) -> (r: ToolEffect)
        ensures
            r == tool_effect(*self, *args),
    {
        StandardTool::effect(self, args)
    }
}

impl Tool for CalculatorTool {
    open spec fn name_view(&self) -> Seq<char> {
        tool_name(StandardTool::Calculator)
    }

    fn name(&self) -> (r: &'static str)
        ensures
            r@ == tool_name(StandardTool::Calculator),
    {
        StandardTool::Calculator.name()
    }

    fn description(&self) -> (r: &'static str)
        ensures
            r@ == tool_description(StandardTool::Calculator),
    {
        StandardTool::Calculator.description()
    }

    fn validate(&self, args: &Json) -> (r: Result<(), String>)
        ensures
            validation_of(r) == tool_validation(StandardTool::Calculator, *args),
    {
        CalculatorTool::validate(self, args)
    }

    fn effect(&self, args: &Json) -> (r: ToolEffect)
        ensures
            r == tool_effect(StandardTool::Calculator, *args),
    {
        CalculatorTool::effect(self, args)
    }
}

impl Tool for EditFileTool {
    open spec fn name_view(&self) -> Seq<char> {
        tool_name(StandardTool::EditFile)
    }

    fn name(&self) -> (r: &'static str)
        ensures
            r@ == tool_name(StandardTool::EditFile),
    {
        StandardTool::EditFile.name()
    }

    fn description(&self) -> (r: &'static str)
        ensures
            r@ == tool_description(StandardTool::EditFile),
    {
        StandardTool::EditFile.description()
    }

    fn validate(&self, args: &Json) -> (r: Result<(), String>)
        ensures
            validation_of(r) == tool_validation(StandardTool::EditFile, *args),
    {
        EditFileTool::validate(self, args)
    }

    fn effect(&self, args: &Json) -> (r: ToolEffect)
        ensures
            r == tool_effect(StandardTool::EditFile, *args),
    {
        EditFileTool::effect(self, args)
    }
}

impl Tool for ReadFileTool {
    open spec fn name_view(&self) -> Seq<char> {
        tool_name(StandardTool::ReadFile)
    }

    fn name(&self) -> (r: &'static str)
        ensures
            r@ == tool_name(StandardTool::ReadFile),
    {
        StandardTool::ReadFile.name()
    }

    fn description(&self) -> (r: &'static str)
        ensures
            r@ == tool_description(StandardTool::ReadFile),
    {
        StandardTool::ReadFile.description()
    }

    fn validate(&self, args: &Json) -> (r: Result<(), String>)
        ensures
            validation_of(r) == tool_validation(StandardTool::ReadFile, *args),
    {
        ReadFileTool::validate(self, args)
    }

    fn effect(&self, args: &Json) -> (r: ToolEffect)
        ensures
            r == tool_effect(StandardTool::ReadFile, *args),
    {
        ReadFileTool::effect(self, args)
    }
}

impl Tool for SearchTool {
    open spec fn name_view(&self) -> Seq<char> {
        tool_name(StandardTool::Search)
    }

    fn name(&self) -> (r: &'static str)
        ensures
            r@ == tool_name(StandardTool::Search),
    {
        StandardTool::Search.name()
    }

    fn description(&self) -> (r: &'static str)
        ensures
            r@ == tool_description(StandardTool::Search),
    {
        StandardTool::Search.description()
    }

    fn validate(&self, args: &Json) -> (r: Result<(), String>)
        ensures
            validation_of(r) == tool_validation(StandardTool::Search, *args),
    {
        SearchTool::validate(self, args)
    }

    fn effect(&self, args: &Json) -> (r: ToolEffect)
        ensures
            r == tool_effect(StandardTool::Search, *args),
    {
        SearchTool::effect(self, args)
    }
}

impl Tool for ShellTool {
    open spec fn name_view(&self) -> Seq<char> {
        tool_name(StandardTool::Shell)
    }

    fn name(&self) -> (r: &'static str)
        ensures
            r@ == tool_name(StandardTool::Shell),
    {
        StandardTool::Shell.name()
    }

    fn description(&self) -> (r: &'static str)
        ensures
            r@ == tool_description(StandardTool::Shell),
    {
        StandardTool::Shell.description()
    }

    fn validate(&self, args: &Json) -> (r: Result<(), String>)
        ensures
            validation_of(r) == tool_validation(StandardTool::Shell, *args),
    {
        ShellTool::validate(self, args)
    }

    fn effect(&self, args: &Json) -> (r: ToolEffect)
        ensures
            r == tool_effect(StandardTool::Shell, *args),
    {
        ShellTool::effect(self, args)
    }
}

impl Tool for TodoTool {
    open spec fn name_view(&self) -> Seq<char> {
        tool_name(StandardTool::Todo)
    }

    fn name(&self) -> (r: &'static str)
        ensures
            r@ == tool_name(StandardTool::Todo),
    {
        StandardTool::Todo.name()
    }

    fn description(&self) -> (r: &'static str)
        ensures
            r@ == tool_description(StandardTool::Todo),
    {
        StandardTool::Todo.description()
    }

    fn validate(&self, args: &Json) -> (r: Result<(), String>)
        ensures
            validation_of(r) == tool_validation(StandardTool::Todo, *args),
    {
        TodoTool::validate(self, args)
    }

    fn effect(&self, args: &Json) -> (r: ToolEffect)
        ensures
            r == tool_effect(StandardTool::Todo, *args),
    {
        TodoTool::effect(self, args)
    }
}

/// The validation result as a specification value.
pub open spec fn validation_of(r: Result<(), String>) -> Result<(), Seq<char>> {
    match r {
        Ok(()) => Ok(()),
        Err(e) => Err(e@),
    }
}

} // verus!
