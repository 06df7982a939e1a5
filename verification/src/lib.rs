//! Verified core of a terminal front-end for everyday source-control work.
//!
//! The crate models the working-tree status and per-commit diffs that the
//! user interface renders, and the keyboard-driven mode state machine that
//! mutates them.  All parsing of status and patch text, list navigation,
//! and mode transitions are verified; process invocation, terminal drawing
//! and network calls live outside the library and hand it plain values.

pub mod ai;
pub mod config;
pub mod cursor;
pub mod git;
pub mod github;
pub mod interactive;
pub mod status;
pub mod text;
pub mod utils;
