//! Reading the designer model's verdict on a report.

use crate::game_design::text::{trimmed, uppercased};
use vstd::prelude::*;

verus! {

/// The token by which the model accepts an implementation.
pub const SATISFIED: &'static str = "SATISFIED";

/// The model's verdict on an implementation report or on a reply.
#[derive(Debug, PartialEq, Eq)]
pub enum Verdict {
    /// The model accepts the implementation.
    Satisfied,
    /// The model has feedback or questions: its answer as it came.
    NeedsWork(String),
}

/// The mathematical value of a [`Verdict`].
pub enum VerdictView {
    Satisfied,
    NeedsWork(Seq<char>),
}

impl View for Verdict {
    type V = VerdictView;

    open spec fn view(&self) -> VerdictView {
        match self {
            Verdict::Satisfied => VerdictView::Satisfied,
            Verdict::NeedsWork(text) => VerdictView::NeedsWork(text@),
        }
    }
}

/// An answer as it is compared with the token: trimmed, then in upper case.
pub open spec fn normalized(raw: Seq<char>) -> Seq<char> {
    uppercased(trimmed(raw))
}

/// The verdict that an answer stands for, given its normalized form: accepted
/// exactly where that form is the token, feedback otherwise.
pub open spec fn verdict_of(normalized: Seq<char>, raw: Seq<char>) -> VerdictView {
    if normalized == SATISFIED@ {
        VerdictView::Satisfied
    } else {
        VerdictView::NeedsWork(raw)
    }
}

/// Whether an answer accepts the implementation.
pub open spec fn is_satisfied(raw: Seq<char>) -> bool {
    normalized(raw) == SATISFIED@
}

/// The verdict for the answer `raw` whose normalized form is `normalized`.
pub fn classify(normalized: String, raw: &str) -> (verdict: Verdict)
    ensures
        verdict@ == verdict_of(normalized@, raw@),
{
    if normalized == SATISFIED.to_owned() {
        Verdict::Satisfied
    } else {
        Verdict::NeedsWork(raw.to_owned())
    }
}

/// Reads the verdict off the model's answer `raw`: trimmed and without regard
/// to case, the answer is either the token `SATISFIED` or feedback.
pub fn parse_verdict(raw: &str) -> (verdict: Verdict)
    ensures
        verdict@ == verdict_of(normalized(raw@), raw@),
        verdict is Satisfied <==> is_satisfied(raw@),
{
    classify(raw.trim().to_uppercase(), raw)
}

} // verus!
