//! A typed wrapper around the `borg` backup binary.
//!
//! The library builds command lines from structured option sets, decodes the
//! newline-delimited JSON log stream that borg emits on its error channel into
//! typed records, drives the create command's progress protocol as a pure
//! state machine, and classifies every outcome into a closed error taxonomy.
//! Process spawning and stream plumbing live outside the library; callers hand
//! in the lines, the exit status and the captured standard output as plain
//! values.

pub mod common;
pub mod create;
pub mod errors;
pub mod json;
pub mod logging;
pub mod output;
pub mod scan;
pub mod text;
