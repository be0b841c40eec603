//! Layout engine for a two-row shell prompt.
//!
//! The library turns a snapshot of facts about the session (the working
//! directory, the state of the repository, the batteries, who and where the
//! user is, the time, the last exit code) into the sequence of terminal
//! operations that draws the prompt. It reads nothing itself: every fact is
//! handed to it as a plain value.

pub mod args;
pub mod colors;
pub mod data;
pub mod gauge;
pub mod path;
pub mod power;
pub mod prompt;
pub mod sys;
pub mod text;
pub mod token;
pub mod vcs;
