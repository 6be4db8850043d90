//! A bridge that turns the fragments handed to a native multimedia library's
//! log callback into complete, severity-tagged log records.

pub mod accumulator;
pub mod bridge;
pub mod severity;
