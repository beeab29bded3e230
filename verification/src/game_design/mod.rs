//! The core logic for managing game design sessions and interacting with the
//! designer model.

/// What is exchanged with the designer model.
pub mod designer_llm;

/// The errors of the session store and the workflow.
pub mod error;

/// Reading JSON text through `serde_json`.
pub mod json;

/// Finding the first occurrence of an item in a list.
pub mod lookup;

/// The messages that are sent to the designer model.
pub mod prompt;

/// Reading the designer model's proposal for the next feature.
pub mod proposal;

/// The implementation reports of a session, keyed by feature name.
pub mod reports;

/// The session store.
pub mod session;

/// Data structures for session state, features and chat messages.
pub mod state;

/// Building and normalising text.
pub mod text;

/// Reading the designer model's verdict on a report.
pub mod verdict;

/// The feature lifecycle.
pub mod workflow;

pub use session::SessionManager;
pub use state::SessionState;
