//! The errors of the session store and the workflow.

use crate::game_design::text::{join2, join3};
use vstd::prelude::*;

verus! {

/// What went wrong.
#[derive(Debug, Clone, Copy, PartialEq, Eq, Structural)]
pub enum ErrorKind {
    /// A session was to be created under an id that is already known.
    AlreadyExists,
    /// A session or a feature is not known.
    NotFound,
    /// No designer model is configured.
    LlmUnavailable,
    /// The designer model could not be reached or answered with a failure.
    LlmRequestFailed,
    /// The designer model's answer could not be read as what was asked for.
    LlmResponseMalformed,
    /// The operation is not legal in the session's current state.
    InvalidStateTransition,
    /// The durable store could not be read or written.
    PersistenceError,
}

/// An error of the session store or the workflow: its kind, and a message with
/// the context needed to diagnose it.
#[derive(Debug, PartialEq, Eq)]
pub struct DesignError {
    pub kind: ErrorKind,
    pub message: String,
}

/// The mathematical value of a [`DesignError`].
pub struct ErrorView {
    pub kind: ErrorKind,
    pub message: Seq<char>,
}

impl View for DesignError {
    type V = ErrorView;

    open spec fn view(&self) -> ErrorView {
        ErrorView { kind: self.kind, message: self.message@ }
    }
}

impl ErrorView {
    /// A session with this id exists already.
    pub open spec fn session_exists(session_id: Seq<char>) -> ErrorView {
        ErrorView {
            kind: ErrorKind::AlreadyExists,
            message: "Session '"@ + session_id + "' already exists"@,
        }
    }

    /// No session with this id is known.
    pub open spec fn session_not_found(session_id: Seq<char>) -> ErrorView {
        ErrorView {
            kind: ErrorKind::NotFound,
            message: "Session '"@ + session_id + "' not found"@,
        }
    }

    /// The checked-out feature is not among the planned features.
    pub open spec fn feature_not_found(feature: Seq<char>) -> ErrorView {
        ErrorView {
            kind: ErrorKind::NotFound,
            message: "Feature '"@ + feature + "' not found in planned features"@,
        }
    }

    /// No designer model is configured for the task named by `purpose`.
    pub open spec fn llm_unavailable(purpose: Seq<char>) -> ErrorView {
        ErrorView {
            kind: ErrorKind::LlmUnavailable,
            message: "LLM client not available to "@ + purpose,
        }
    }

    /// The call to the designer model failed; `detail` says how.
    pub open spec fn llm_request_failed(detail: Seq<char>) -> ErrorView {
        ErrorView { kind: ErrorKind::LlmRequestFailed, message: detail }
    }

    /// The designer model's answer is not JSON.
    pub open spec fn response_not_json(raw: Seq<char>) -> ErrorView {
        ErrorView {
            kind: ErrorKind::LlmResponseMalformed,
            message: "LLM response was not valid JSON: "@ + raw,
        }
    }

    /// The designer model's answer is JSON but lacks a field that was asked for.
    pub open spec fn response_missing_fields(raw: Seq<char>) -> ErrorView {
        ErrorView {
            kind: ErrorKind::LlmResponseMalformed,
            message: "LLM response did not contain expected 'name' and 'description' fields: "@
                + raw,
        }
    }

    /// No feature is checked out.
    pub open spec fn no_active_feature() -> ErrorView {
        ErrorView {
            kind: ErrorKind::InvalidStateTransition,
            message: "No next feature to implement"@,
        }
    }

    /// The checked-out feature is not waiting for rework.
    pub open spec fn not_in_rework(feature: Seq<char>) -> ErrorView {
        ErrorView {
            kind: ErrorKind::InvalidStateTransition,
            message: "Feature '"@ + feature + "' is not in NeedsRework status"@,
        }
    }

    /// The checked-out feature has no report that a reply could be about.
    pub open spec fn no_report(feature: Seq<char>) -> ErrorView {
        ErrorView {
            kind: ErrorKind::InvalidStateTransition,
            message: "No implementation report found for feature '"@ + feature + "'"@,
        }
    }

    /// The directory of the durable store could not be made; `detail` says
    /// why.
    pub open spec fn storage_unavailable(directory: Seq<char>, detail: Seq<char>) -> ErrorView {
        ErrorView {
            kind: ErrorKind::PersistenceError,
            message: "Failed to create .gamedesignerd directory: "@ + directory + ": "@ + detail,
        }
    }

    /// The durable store failed; `detail` says how.
    pub open spec fn persistence(detail: Seq<char>) -> ErrorView {
        ErrorView { kind: ErrorKind::PersistenceError, message: detail }
    }
}

impl DesignError {
    /// The message of the error.
    pub fn message(&self) -> (text: String)
        ensures
            text@ == self@.message,
    {
        self.message.clone()
    }

    pub fn session_exists(session_id: &str) -> (error: Self)
        ensures
            error@ == ErrorView::session_exists(session_id@),
    {
        DesignError {
            kind: ErrorKind::AlreadyExists,
            message: join3("Session '", session_id, "' already exists"),
        }
    }

    pub fn session_not_found(session_id: &str) -> (error: Self)
        ensures
            error@ == ErrorView::session_not_found(session_id@),
    {
        DesignError {
            kind: ErrorKind::NotFound,
            message: join3("Session '", session_id, "' not found"),
        }
    }

    pub fn feature_not_found(feature: &str) -> (error: Self)
        ensures
            error@ == ErrorView::feature_not_found(feature@),
    {
        DesignError {
            kind: ErrorKind::NotFound,
            message: join3("Feature '", feature, "' not found in planned features"),
        }
    }

    pub fn llm_unavailable(purpose: &str) -> (error: Self)
        ensures
            error@ == ErrorView::llm_unavailable(purpose@),
    {
        DesignError {
            kind: ErrorKind::LlmUnavailable,
            message: join2("LLM client not available to ", purpose),
        }
    }

    pub fn llm_request_failed(detail: String) -> (error: Self)
        ensures
            error@ == ErrorView::llm_request_failed(detail@),
    {
        DesignError { kind: ErrorKind::LlmRequestFailed, message: detail }
    }

    pub fn response_not_json(raw: &str) -> (error: Self)
        ensures
            error@ == ErrorView::response_not_json(raw@),
    {
        DesignError {
            kind: ErrorKind::LlmResponseMalformed,
            message: join2("LLM response was not valid JSON: ", raw),
        }
    }

    pub fn response_missing_fields(raw: &str) -> (error: Self)
        ensures
            error@ == ErrorView::response_missing_fields(raw@),
    {
        DesignError {
            kind: ErrorKind::LlmResponseMalformed,
            message: join2(
                "LLM response did not contain expected 'name' and 'description' fields: ",
                raw,
            ),
        }
    }

    pub fn no_active_feature() -> (error: Self)
        ensures
            error@ == ErrorView::no_active_feature(),
    {
        DesignError {
            kind: ErrorKind::InvalidStateTransition,
            message: "No next feature to implement".to_owned(),
        }
    }

    pub fn not_in_rework(feature: &str) -> (error: Self)
        ensures
            error@ == ErrorView::not_in_rework(feature@),
    {
        DesignError {
            kind: ErrorKind::InvalidStateTransition,
            message: join3("Feature '", feature, "' is not in NeedsRework status"),
        }
    }

    pub fn no_report(feature: &str) -> (error: Self)
        ensures
            error@ == ErrorView::no_report(feature@),
    {
        DesignError {
            kind: ErrorKind::InvalidStateTransition,
            message: join3("No implementation report found for feature '", feature, "'"),
        }
    }

    pub fn storage_unavailable(directory: &str, detail: &str) -> (error: Self)
        ensures
            error@ == ErrorView::storage_unavailable(directory@, detail@),
    {
        let mut message = join3("Failed to create .gamedesignerd directory: ", directory, ": ");
        message.append(detail);
        DesignError { kind: ErrorKind::PersistenceError, message }
    }

    pub fn persistence(detail: String) -> (error: Self)
        ensures
            error@ == ErrorView::persistence(detail@),
    {
        DesignError { kind: ErrorKind::PersistenceError, message: detail }
    }
}

} // verus!
