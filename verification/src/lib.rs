//! Generates editor debugger-launch configuration documents for a project.
//!
//! The crate inspects evidence about a project's files (handed in as plain
//! values), infers which language ecosystems are present, and assembles the
//! matching launch-configuration documents into a fixed envelope.

pub mod assemble;
pub mod detect;
pub mod doc;
pub mod laws;
pub mod providers;
pub mod strutil;
