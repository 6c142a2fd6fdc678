//! Diagnosis of a machine's GPU computing stack: probing strategies, parsers
//! for their raw output, environment snapshots and their comparison.

pub mod advice;
pub mod bridge;
pub mod checks;
pub mod detect;
pub mod gpu;
pub mod parse;
pub mod probe;
pub mod reconcile;
pub mod report;
pub mod snapshot;
pub mod survey;
pub mod text;
