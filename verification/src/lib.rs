//! Snapshot engine for project scaffolding.
//!
//! The library captures a directory tree as a reusable snapshot and later
//! materializes a snapshot into a new location, substituting user-supplied
//! variables into file contents.  It covers ignore-pattern compilation,
//! filtered tree copying, per-file placeholder substitution, the
//! variable-collection protocol, snapshot identity rules, and the text-mode
//! browser's state machine.  All file-system and terminal I/O stays with the
//! embedding application, which hands the engine plain values.

pub mod cli;
pub mod config;
pub mod error;
pub mod ignore;
pub mod manifest;
pub mod registry;
pub mod snapshot;
pub mod substitute;
pub mod text;
pub mod tree;
pub mod tui;
