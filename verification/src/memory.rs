//! The records that session memory stores and hands back.
//!
//! The store itself is a SQLite database that the application opens; the
//! library keeps its location and the shapes of what it returns.

use vstd::prelude::*;

use crate::model::ChatMessage;
use crate::text::{chars_eq, chars_of};

verus! {

/// The tables of session memory, created when missing.
pub const SCHEMA: &'static str = "PRAGMA journal_mode=WAL;\n                 PRAGMA foreign_keys=ON;\n                 PRAGMA busy_timeout=5000;\n                 CREATE TABLE IF NOT EXISTS sessions (\n                    user_id TEXT NOT NULL,\n                    session_id TEXT NOT NULL,\n                    title TEXT NOT NULL DEFAULT '',\n                    summary TEXT NOT NULL DEFAULT '',\n                    compacted_through INTEGER NOT NULL DEFAULT 0,\n                    created_at INTEGER NOT NULL,\n                    updated_at INTEGER NOT NULL,\n                    PRIMARY KEY(user_id, session_id)\n                 );\n                 CREATE TABLE IF NOT EXISTS messages (\n                    user_id TEXT NOT NULL,\n                    session_id TEXT NOT NULL,\n                    seq INTEGER NOT NULL,\n                    message_json TEXT NOT NULL,\n                    created_at INTEGER NOT NULL,\n                    PRIMARY KEY(user_id, session_id, seq)\n                 );\n                 CREATE TABLE IF NOT EXISTS todos (\n                    id INTEGER PRIMARY KEY AUTOINCREMENT,\n                    user_id TEXT NOT NULL,\n                    session_id TEXT NOT NULL,\n                    title TEXT NOT NULL,\n                    status TEXT NOT NULL DEFAULT 'open',\n                    created_at INTEGER NOT NULL\n                 );\n                 CREATE TABLE IF NOT EXISTS tool_runs (\n                    user_id TEXT NOT NULL,\n                    session_id TEXT NOT NULL,\n                    call_id TEXT NOT NULL,\n                    tool_name TEXT NOT NULL,\n                    args_json TEXT NOT NULL,\n                    output_json TEXT NOT NULL,\n                    duration_ms INTEGER NOT NULL,\n                    created_at INTEGER NOT NULL,\n                    PRIMARY KEY(user_id, session_id, call_id)\n                 );";

/// The statement that adds the title column to a database made before
/// sessions had titles.
pub const ADD_TITLE_COLUMN: &'static str = "ALTER TABLE sessions ADD COLUMN title TEXT NOT NULL DEFAULT ''";

/// Whether a table whose columns have these names has `column`.
pub fn has_column(names: &[String], column: &str) -> (r: bool)
    ensures
        r == exists|i: int| 0 <= i < names@.len() && (#[trigger] names@[i])@ == column@,
{
    let c = chars_of(column);
    let mut i: usize = 0;
    while i < names.len()
        invariant
            i <= names.len(),
            c@ == column@,
            forall|k: int| 0 <= k < i ==> (#[trigger] names@[k])@ != column@,
        decreases names.len() - i,
    {
        if chars_eq(&chars_of(names[i].as_str()), &c) {
            return true;
        }
        i = i + 1;
    }
    false
}

/// Whether a sessions table with these columns must be migrated: it lacks
/// the title column.
pub fn needs_title_column(names: &[String]) -> (r: bool)
    ensures
        r == !exists|i: int| 0 <= i < names@.len() && (#[trigger] names@[i])@ == "title"@,
{
    !has_column(names, "title")
}

/// A persisted message with its position in the session transcript.
#[derive(Debug, Clone)]
pub struct StoredMessage {
    pub seq: i64,
    pub message: ChatMessage,
}

/// One saved session as `list_sessions` reports it.
#[derive(Debug, Clone, PartialEq, Eq)]
pub struct SessionInfo {
    pub session_id: String,
    pub title: String,
    pub updated_at: i64,
}

/// Where session memory lives.
#[derive(Debug, Clone)]
pub struct Memory {
    path: String,
}

impl Memory {
    /// Session memory kept in the database file at `path`.
    pub fn at(path: &str) -> (m: Memory)
        ensures
            m.path_view() == path@,
    {
        Memory { path: crate::model::owned(path) }
    }

    /// The database file's location.
    pub closed spec fn path_view(&self) -> Seq<char> {
        self.path@
    }

    /// The database file's location.
    pub fn path(&self) -> (r: &str)
        ensures
            r@ == self.path_view(),
    {
        self.path.as_str()
    }
}

} // verus!
