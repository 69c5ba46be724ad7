//! Decision core of a workspace task runner.
//!
//! The library holds the logic that selects which workspace members a
//! command operates on, composes the token list handed to the toolchain,
//! decides sanitizer-to-platform compatibility, expands composite
//! sub-commands, and gates execution in a production environment.  All
//! process spawning, workspace discovery and terminal interaction live
//! outside the library; they receive plans built here and hand back plain
//! outcomes.

pub mod compose;
pub mod config;
pub mod dispatch;
pub mod plan;
pub mod sanitizer;
pub mod strings;
pub mod vulnerabilities;
