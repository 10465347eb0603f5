//! Core of an interactive file-search tool: a multi-strategy search engine
//! (fuzzy, regex and substring scoring over directory entries) and the
//! session state machine that drives it from keystrokes.

pub mod file_system;
pub mod config;
pub mod matching;
pub mod search;
pub mod session;
pub mod text;
