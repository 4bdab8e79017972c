//! Library behind a wrapper around a line-oriented child process that emits
//! newline-delimited JSON events: a permissive event extractor, an aggregator
//! with a deterministic renderer, a bounded diagnostic-capture buffer, and the
//! pure planning logic of the process orchestration (invocation shaping,
//! stream parsing, report composition). Process and terminal I/O live outside
//! the library and only hand plain values in and out.

pub mod capture;
pub mod cli;
pub mod events;
pub mod json;
pub mod output;
pub mod runner;
pub mod text;
