//! Reading the designer model's proposal for the next feature.

use crate::game_design::error::{DesignError, ErrorView};
use crate::game_design::json::{json_document, json_text_member, parse_json};
use crate::game_design::text::text_view;
use vstd::prelude::*;

verus! {

/// The member of the model's answer that holds the feature's name.
pub const NAME_FIELD: &'static str = "name";

/// The member of the model's answer that holds the feature's specification.
pub const DESCRIPTION_FIELD: &'static str = "description";

/// A feature as the model proposes it.
#[derive(Debug, PartialEq, Eq)]
pub struct FeatureProposal {
    pub name: String,
    pub description: String,
}

/// The mathematical value of a [`FeatureProposal`].
pub struct ProposalView {
    pub name: Seq<char>,
    pub description: Seq<char>,
}

impl View for FeatureProposal {
    type V = ProposalView;

    open spec fn view(&self) -> ProposalView {
        ProposalView { name: self.name@, description: self.description@ }
    }
}

/// The value of a parsed proposal or of the error in its place.
pub open spec fn parsed_view(parsed: Result<FeatureProposal, DesignError>) -> Result<
    ProposalView,
    ErrorView,
> {
    match parsed {
        Ok(proposal) => Ok(proposal@),
        Err(error) => Err(error@),
    }
}

/// The value that a map holds for `key`, if any.
pub open spec fn member(members: Map<Seq<char>, Seq<char>>, key: Seq<char>) -> Option<Seq<char>> {
    if members.contains_key(key) {
        Some(members[key])
    } else {
        None
    }
}

/// The proposal that the two members of an answer make: both must be there.
pub open spec fn proposal_from(
    name: Option<Seq<char>>,
    description: Option<Seq<char>>,
    raw: Seq<char>,
) -> Result<ProposalView, ErrorView> {
    match (name, description) {
        (Some(name), Some(description)) => Ok(ProposalView { name, description }),
        _ => Err(ErrorView::response_missing_fields(raw)),
    }
}

/// The proposal that an answer stands for, given what it holds as JSON: an
/// answer that is not JSON is refused, and so is one without a string under
/// `name` or under `description`.
pub open spec fn proposal_of(
    document: Option<Map<Seq<char>, Seq<char>>>,
    raw: Seq<char>,
) -> Result<ProposalView, ErrorView> {
    match document {
        None => Err(ErrorView::response_not_json(raw)),
        Some(members) => proposal_from(
            member(members, NAME_FIELD@),
            member(members, DESCRIPTION_FIELD@),
            raw,
        ),
    }
}

/// Makes a proposal of the two members found in the answer `raw`.
pub fn proposal_from_members(
    name: Option<String>,
    description: Option<String>,
    raw: &str,
) -> (parsed: Result<FeatureProposal, DesignError>)
    ensures
        parsed_view(parsed) == proposal_from(text_view(name), text_view(description), raw@),
{
    match name {
        Some(name) => match description {
            Some(description) => Ok(FeatureProposal { name, description }),
            None => Err(DesignError::response_missing_fields(raw)),
        },
        None => Err(DesignError::response_missing_fields(raw)),
    }
}

/// Reads the model's answer `raw` as a proposal: a JSON object with a string
/// under `name` and a string under `description`.
pub fn parse_proposal(raw: &str) -> (parsed: Result<FeatureProposal, DesignError>)
    ensures
        parsed_view(parsed) == proposal_of(json_document(raw@), raw@),
{
    match parse_json(raw) {
        Ok(value) => {
            let name = json_text_member(&value, NAME_FIELD);
            let description = json_text_member(&value, DESCRIPTION_FIELD);
            proposal_from_members(name, description, raw)
        },
        Err(_) => Err(DesignError::response_not_json(raw)),
    }
}

} // verus!
