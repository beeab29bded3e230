//! The operations that the outer tool layer exposes.

/// Tools that work on crate documentation.
pub mod docs;

/// The tools of the game designer: which calls there are and what they
/// answer.
pub mod game_tools;

pub use game_tools::{resolve_tool_call, ToolCall, ToolFailure};
