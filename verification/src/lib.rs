//! A personal bookmarking core: raw captured text is classified into a typed
//! content kind by an ordered registry of interpreters (URL, filesystem path,
//! plain-text fallback), wrapped into a bookmark, and kept in a store that
//! preserves insertion order. Command handlers decide, from plain values, what
//! each user command does to the store and which exit code it yields.

pub mod bookmark;
pub mod command;
pub mod interpreter;
pub mod storage;
