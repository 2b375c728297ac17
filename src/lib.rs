//! Command-line intent routing: system executables first, then a persistent
//! cache of synthesized commands, then generation on demand, with a consent
//! ledger for the capabilities each generated script asks for.
//!
//! This crate holds the decision logic, verified. Process spawning, the
//! network, the terminal and the filesystem are driven from outside, through
//! the plain values and actions these modules hand out.

pub mod command_cache;
pub mod command_router;
pub mod config;
pub mod execution_context;
pub mod executor;
pub mod llm_generator;
pub mod permission_ui;
pub mod providers;
pub mod text;
