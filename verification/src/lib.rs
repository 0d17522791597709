//! Intake pipeline for a directory of HTML documents that are rendered to PDF.
//!
//! The library holds the rules of the pipeline: how paths are read, how a
//! watcher's events are classified, which names a document passes through,
//! and the state machine that a driver follows from one filesystem step to
//! the next. The driver performs the steps; the library decides them.

pub mod path;
pub mod namer;
pub mod event;
pub mod pipeline;
pub mod laws;
