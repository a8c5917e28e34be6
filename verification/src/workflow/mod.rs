//! Workflow definitions, their evaluation against a task, the built-in
//! default and the rules text.

pub mod definition;
pub mod engine;
pub mod default;
pub mod laws;
pub mod loader;
