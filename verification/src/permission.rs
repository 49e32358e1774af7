//! Execution permission: run tool batches directly or ask first.

use vstd::prelude::*;

use crate::text::{chars_eq_str, chars_of, decimal, decimal_chars, trim, trim_spec};

verus! {

/// Whether validated tool batches run at once or wait for the user's approval.
#[derive(Debug, Clone, Copy, PartialEq, Eq, Structural)]
pub enum PermissionMode {
    FullAccess,
    RequireApproval,
}

/// The mode that a permission name selects, if any.
pub open spec fn mode_of_name(name: Seq<char>) -> Option<PermissionMode> {
    if name == "full-access"@ {
        Some(PermissionMode::FullAccess)
    } else if name == "require-approval"@ {
        Some(PermissionMode::RequireApproval)
    } else {
        None
    }
}

/// The name of a mode.
pub open spec fn mode_name(mode: PermissionMode) -> Seq<char> {
    match mode {
        PermissionMode::FullAccess => "full-access"@,
        PermissionMode::RequireApproval => "require-approval"@,
    }
}

impl PermissionMode {
    /// The mode named by `name` (`full-access` or `require-approval`).
    pub fn parse_chars(name: &[char]) -> (r: Option<PermissionMode>)
        ensures
            r == mode_of_name(name@),
    {
        if chars_eq_str(name, "full-access") {
            Some(PermissionMode::FullAccess)
        } else if chars_eq_str(name, "require-approval") {
            Some(PermissionMode::RequireApproval)
        } else {
            None
        }
    }

    /// Parses a permission name; any other text is refused with the message
    /// `expected full-access or require-approval`.
    pub fn parse(name: &str) -> (r: Result<PermissionMode, String>)
        ensures
            match r {
                Ok(m) => mode_of_name(name@) == Some(m),
                Err(e) => mode_of_name(name@) is None && e@
                    == "expected full-access or require-approval"@,
            },
    {
        match PermissionMode::parse_chars(&chars_of(name)) {
            Some(m) => Ok(m),
            None => Err(crate::model::owned("expected full-access or require-approval")),
        }
    }

    /// The name of this mode, as `parse` reads it.
    pub fn name(&self) -> (r: &'static str)
        ensures
            r@ == mode_name(*self),
    {
        match self {
            PermissionMode::FullAccess => "full-access",
            PermissionMode::RequireApproval => "require-approval",
        }
    }

    /// The name of this mode as an owned string (what `Display` shows).
    pub fn to_string(&self) -> (r: String)
        ensures
            r@ == mode_name(*self),
    {
        crate::model::owned(self.name())
    }
}

/// Asks the user on the console before a tool batch runs.
pub struct StdinApprover;

impl StdinApprover {
    /// Whether an answer approves the batch: `y` in either case, surrounding
    /// whitespace ignored.
    pub fn accepts(answer: &str) -> (r: bool)
        ensures
            r == (trim_spec(answer@) == "y"@ || trim_spec(answer@) == "Y"@),
    {
        let t = trim(&chars_of(answer));
        chars_eq_str(&t, "y") || chars_eq_str(&t, "Y")
    }

    /// Whether a batch needs no question: it is empty.
    pub fn approves_without_asking(count: usize) -> (r: bool)
        ensures
            r == (count == 0),
    {
        count == 0
    }

    /// The heading of the question about a batch of `count` calls.
    pub fn heading(count: usize) -> (r: String)
        ensures
            r@ == "\nAgent requests "@ + decimal(count as nat) + " tool call(s):"@,
    {
        let mut out = crate::model::owned("\nAgent requests ");
        crate::text::push_chars(&mut out, &decimal_chars(count as u64));
        crate::text::push_str(&mut out, " tool call(s):");
        out
    }

    /// The line that names call `index` (counted from 0) of a batch.
    pub fn call_line(index: usize, name: &str) -> (r: String)
        requires
            index < u64::MAX,
        ensures
            r@ == "\n["@ + decimal(index as nat + 1) + "] "@ + name@,
    {
        let mut out = crate::model::owned("\n[");
        crate::text::push_chars(&mut out, &decimal_chars(index as u64 + 1));
        crate::text::push_str(&mut out, "] ");
        crate::text::push_str(&mut out, name);
        out
    }
}

/// Printing a mode's name and reading it back gives the same mode.
pub proof fn lemma_mode_name_round_trip(mode: PermissionMode)
    ensures
        mode_of_name(mode_name(mode)) == Some(mode),
{
    reveal_strlit("full-access");
    reveal_strlit("require-approval");
    assert("full-access"@ != "require-approval"@) by {
        assert("full-access"@.len() != "require-approval"@.len());
    }
}

impl std::str::FromStr for PermissionMode {
    type Err = String;

    fn from_str(value: &str) -> (r: Result<PermissionMode, String>)
        ensures
            match r {
                Ok(m) => mode_of_name(value@) == Some(m),
                Err(e) => mode_of_name(value@) is None && e@
                    == "expected full-access or require-approval"@,
            },
    {
        PermissionMode::parse(value)
    }
}

} // verus!
