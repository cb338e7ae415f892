//! Verified core of the WASI state: error-code mappings, poll-event sets,
//! bus rights, and the decisions of the compiled-module cache.
pub mod errors;
pub mod poll;
pub mod rights;
pub mod module_cache;
pub mod port;
