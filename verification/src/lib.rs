//! A coding-agent runtime: command parsing, context assembly, the agent loop's
//! decisions, tool argument checking and the tools' pure logic.

pub mod text;
pub mod json;
pub mod model;
pub mod permission;
pub mod commands;
pub mod memory;
pub mod context;
pub mod error;
pub mod tools;
pub mod agent;
pub mod batch;
pub mod paths;
pub mod config;
pub mod llm;
pub mod renderer;
pub mod repl;
