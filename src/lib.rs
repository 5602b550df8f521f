//! Decision logic of a build orchestrator for a native cryptography library:
//! how bindings are obtained, how the native build is configured, and which
//! link and include directives are published to the consuming build graph.

pub mod bindings;
pub mod directives;
pub mod error;
pub mod linkage;
pub mod native_build;
pub mod paths;
pub mod plan;
pub mod staging;
pub mod strategy;
pub mod text;
