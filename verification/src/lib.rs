//! Realtime-safety checking over an annotated call graph.
//!
//! Code declared realtime must never call code declared non-realtime. The
//! library reads the safety markers attached to declarations and to `let`
//! statements, tracks the classification of local bindings inside one body,
//! and decides for every call expression whether it is a violation.

pub mod tag;
pub mod text;
pub mod marker;
pub mod model;
pub mod store;
pub mod report;
pub mod checker;
pub mod stamp;
pub mod traversal;
pub mod laws;
pub mod samples;
