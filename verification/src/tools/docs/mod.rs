//! Tools that work on crate documentation.

/// Summaries of crate documentation, written by a language model.
pub mod summarizer;
