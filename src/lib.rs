//! Builds structured prompts for large language models from a short user
//! intent and optional scanned reference code.

pub mod document;
pub mod command;
pub mod splice;
pub mod template;
pub mod compose;
pub mod laws;
pub mod scan;
