//! The feature lifecycle: requesting the next feature, submitting an
//! implementation report, replying to the review.
//!
//! Each operation has two steps. The first reads the session and says what to
//! send to the designer model, or answers at once. The second takes the outcome
//! of the call and changes the session. Nothing changes unless the second step
//! succeeds.

use crate::game_design::designer_llm::{
    messages_view, outcome_view, ChatMessage, ChatMessageView, LlmOutcome,
};
use crate::game_design::error::{DesignError, ErrorKind, ErrorView};
use crate::game_design::json::json_document;
use crate::game_design::lookup::{
    first_index, lemma_first_index_exists, lemma_first_index_is_first,
};
use crate::game_design::prompt::{
    build_next_feature_messages, build_reply_messages, build_review_messages,
    next_feature_messages, reply_messages, review_messages,
};
use crate::game_design::proposal::{parse_proposal, proposal_of, FeatureProposal, ProposalView};
use crate::game_design::reports::{keys_distinct, lemma_with_report, report_for, with_report};
use crate::game_design::state::{
    feature_names, features_view, find_feature, Feature, FeatureStatus, FeatureView,
    SessionState, SessionView,
};
use crate::game_design::verdict::{is_satisfied, parse_verdict, Verdict};
use vstd::prelude::*;

verus! {

/// What the model is needed for when the next feature is requested.
pub const PURPOSE_NEXT_FEATURE: &'static str = "generate next feature";

/// What the model is needed for when a report is submitted.
pub const PURPOSE_REVIEW: &'static str = "perform feature review";

/// What the model is needed for when a reply is submitted.
pub const PURPOSE_REPLY: &'static str = "process review reply";

/// The value of a text result.
pub open spec fn text_result_view(result: Result<String, DesignError>) -> Result<
    Seq<char>,
    ErrorView,
> {
    match result {
        Ok(text) => Ok(text@),
        Err(error) => Err(error@),
    }
}

/// The value of a result that carries messages for the model.
pub open spec fn request_view(result: Result<Vec<ChatMessage>, DesignError>) -> Result<
    Seq<ChatMessageView>,
    ErrorView,
> {
    match result {
        Ok(messages) => Ok(messages_view(messages@)),
        Err(error) => Err(error@),
    }
}

/// What is to be done when the next feature is requested.
#[derive(Debug, PartialEq, Eq)]
pub enum NextFeatureStep {
    /// A feature is checked out already: its specification. The model is not
    /// asked.
    Cached(String),
    /// No feature is checked out: the messages to send to the model.
    AskModel(Vec<ChatMessage>),
}

/// The mathematical value of a [`NextFeatureStep`].
pub enum StepView {
    Cached(Seq<char>),
    AskModel(Seq<ChatMessageView>),
}

impl View for NextFeatureStep {
    type V = StepView;

    open spec fn view(&self) -> StepView {
        match self {
            NextFeatureStep::Cached(description) => StepView::Cached(description@),
            NextFeatureStep::AskModel(messages) => StepView::AskModel(messages_view(messages@)),
        }
    }
}

/// The value of a step or of the error in its place.
pub open spec fn step_view(result: Result<NextFeatureStep, DesignError>) -> Result<
    StepView,
    ErrorView,
> {
    match result {
        Ok(step) => Ok(step@),
        Err(error) => Err(error@),
    }
}

impl SessionView {
    /// What requesting the next feature comes to: the checked-out feature's
    /// specification where one is checked out and known; else the messages
    /// for the model, which must be available.
    pub open spec fn next_feature_step(self, llm_available: bool) -> Result<StepView, ErrorView> {
        match self.active_index() {
            Some(i) => Ok(StepView::Cached(self.planned_features[i].description)),
            None => if llm_available {
                Ok(StepView::AskModel(next_feature_messages(self)))
            } else {
                Err(ErrorView::llm_unavailable(PURPOSE_NEXT_FEATURE@))
            },
        }
    }

    /// The session with `proposal` appended as a planned feature and checked
    /// out.
    pub open spec fn with_feature(self, proposal: ProposalView) -> SessionView {
        SessionView {
            planned_features: self.planned_features.push(
                FeatureView {
                    name: proposal.name,
                    description: proposal.description,
                    status: FeatureStatus::Planned,
                },
            ),
            next_feature_to_implement: Some(proposal.name),
            ..self
        }
    }

    /// The session and the answer after the model was asked for the next
    /// feature: a proposal that can be read is planned and checked out, and its
    /// specification returned; anything else leaves the session as it was.
    pub open spec fn next_feature_recorded(self, outcome: Result<Seq<char>, Seq<char>>) -> (
        SessionView,
        Result<Seq<char>, ErrorView>,
    ) {
        match outcome {
            Err(detail) => (self, Err(ErrorView::llm_request_failed(detail))),
            Ok(raw) => match proposal_of(json_document(raw), raw) {
                Ok(proposal) => (self.with_feature(proposal), Ok(proposal.description)),
                Err(error) => (self, Err(error)),
            },
        }
    }

    /// The feature under review: the checked-out one, which must be planned.
    pub open spec fn review_target(self) -> Result<int, ErrorView> {
        match self.next_feature_to_implement {
            None => Err(ErrorView::no_active_feature()),
            Some(name) => match first_index(feature_names(self.planned_features), name) {
                Some(i) => Ok(i),
                None => Err(ErrorView::feature_not_found(name)),
            },
        }
    }

    /// What submitting a report comes to. The session is looked at first: a
    /// session without a feature under review is refused whether or not there
    /// is a model. Only then is the model asked for, and with it the request
    /// is the messages that ask for the review.
    pub open spec fn review_request(self, changes_made: Seq<char>, llm_available: bool) -> Result<
        Seq<ChatMessageView>,
        ErrorView,
    > {
        match self.review_target() {
            Err(error) => Err(error),
            Ok(i) => if !llm_available {
                Err(ErrorView::llm_unavailable(PURPOSE_REVIEW@))
            } else {
                Ok(
                    review_messages(
                        self.initial_description,
                        self.planned_features[i],
                        changes_made,
                    ),
                )
            },
        }
    }

    /// The session with the status of feature `i` set to `status`.
    pub open spec fn with_status(self, i: int, status: FeatureStatus) -> SessionView {
        SessionView {
            planned_features: self.planned_features.update(
                i,
                FeatureView { status, ..self.planned_features[i] },
            ),
            ..self
        }
    }

    /// The session after the review of a report on feature `i`: the report is
    /// stored whatever the verdict; an accepted feature is reviewed and no
    /// longer checked out, any other needs rework and stays checked out.
    pub open spec fn after_review(self, i: int, changes_made: Seq<char>, satisfied: bool)
        -> SessionView {
        let stored = SessionView {
            implemented_features_reports: with_report(
                self.implemented_features_reports,
                self.planned_features[i].name,
                changes_made,
            ),
            ..self
        };
        if satisfied {
            SessionView {
                next_feature_to_implement: None,
                ..stored.with_status(i, FeatureStatus::Reviewed)
            }
        } else {
            stored.with_status(i, FeatureStatus::NeedsRework)
        }
    }

    /// The session and the answer after the model was asked to review a
    /// report: its answer as it came, with the session changed by the verdict;
    /// anything else leaves the session as it was.
    pub open spec fn review_recorded(
        self,
        changes_made: Seq<char>,
        outcome: Result<Seq<char>, Seq<char>>,
    ) -> (SessionView, Result<Seq<char>, ErrorView>) {
        match self.review_target() {
            Err(error) => (self, Err(error)),
            Ok(i) => match outcome {
                Err(detail) => (self, Err(ErrorView::llm_request_failed(detail))),
                Ok(raw) => (self.after_review(i, changes_made, is_satisfied(raw)), Ok(raw)),
            },
        }
    }

    /// The feature that a reply is about: the one under review, which must be
    /// waiting for rework and have a report.
    pub open spec fn reply_target(self) -> Result<int, ErrorView> {
        match self.review_target() {
            Err(error) => Err(error),
            Ok(i) => {
                let feature = self.planned_features[i];
                if feature.status != FeatureStatus::NeedsRework {
                    Err(ErrorView::not_in_rework(feature.name))
                } else if report_for(self.implemented_features_reports, feature.name) is None {
                    Err(ErrorView::no_report(feature.name))
                } else {
                    Ok(i)
                }
            },
        }
    }

    /// What submitting a reply comes to. The session is looked at first: a
    /// session whose checked-out feature does not wait for rework, or has no
    /// report, is refused whether or not there is a model. Only then is the
    /// model asked for, and with it the request is the messages that ask the
    /// model to read the reply.
    pub open spec fn reply_request(self, reply: Seq<char>, llm_available: bool) -> Result<
        Seq<ChatMessageView>,
        ErrorView,
    > {
        match self.reply_target() {
            Err(error) => Err(error),
            Ok(i) => if !llm_available {
                Err(ErrorView::llm_unavailable(PURPOSE_REPLY@))
            } else {
                Ok(
                    reply_messages(
                        self.initial_description,
                        self.planned_features[i],
                        report_for(
                            self.implemented_features_reports,
                            self.planned_features[i].name,
                        )->0,
                        reply,
                    ),
                )
            },
        }
    }

    /// The session after the model read a reply about feature `i`: an accepted
    /// feature is reviewed and no longer checked out; otherwise nothing
    /// changes, and the report stays what it was.
    pub open spec fn after_reply(self, i: int, satisfied: bool) -> SessionView {
        if satisfied {
            SessionView {
                next_feature_to_implement: None,
                ..self.with_status(i, FeatureStatus::Reviewed)
            }
        } else {
            self
        }
    }

    /// The session and the answer after the model was asked to read a reply:
    /// its answer as it came, with the session changed by the verdict; anything
    /// else leaves the session as it was.
    pub open spec fn reply_recorded(self, outcome: Result<Seq<char>, Seq<char>>) -> (
        SessionView,
        Result<Seq<char>, ErrorView>,
    ) {
        match self.reply_target() {
            Err(error) => (self, Err(error)),
            Ok(i) => match outcome {
                Err(detail) => (self, Err(ErrorView::llm_request_failed(detail))),
                Ok(raw) => (self.after_reply(i, is_satisfied(raw)), Ok(raw)),
            },
        }
    }
}

/// Every planned feature of `before` is still planned in `after`, at the
/// same place and with the same name and specification.
pub open spec fn features_kept(before: SessionView, after: SessionView) -> bool {
    &&& before.planned_features.len() <= after.planned_features.len()
    &&& forall|j: int|
        0 <= j < before.planned_features.len() ==> {
            &&& (#[trigger] after.planned_features[j]).name == before.planned_features[j].name
            &&& after.planned_features[j].description == before.planned_features[j].description
        }
}

/// What no operation changes: the id, the design document and the chat
/// history stay, and no planned feature is removed, renamed or respecified.
pub open spec fn same_session(before: SessionView, after: SessionView) -> bool {
    &&& after.id == before.id
    &&& after.initial_description == before.initial_description
    &&& after.llm_chat_history == before.llm_chat_history
    &&& features_kept(before, after)
}

/// Feature `j` is `Reviewed` in `after` and was not in `before`.
pub open spec fn newly_reviewed(before: SessionView, after: SessionView, j: int) -> bool {
    &&& 0 <= j < before.planned_features.len()
    &&& j < after.planned_features.len()
    &&& after.planned_features[j].status == FeatureStatus::Reviewed
    &&& before.planned_features[j].status != FeatureStatus::Reviewed
}

/// While a feature is checked out, requesting the next feature returns that
/// feature's specification, whether or not the model is available: the model is
/// not asked, and since the request changes nothing, asking again gives the same
/// answer.
pub proof fn lemma_checked_out_feature_is_returned(
    session: SessionView,
    llm_available: bool,
    llm_available_later: bool,
)
    requires
        session.active_index() is Some,
    ensures
        session.next_feature_step(llm_available) == Ok::<StepView, ErrorView>(
            StepView::Cached(session.planned_features[session.active_index()->0].description),
        ),
        session.next_feature_step(llm_available_later) == session.next_feature_step(
            llm_available,
        ),
{
}

/// Without a model and without a feature that is checked out and planned,
/// requesting the next feature fails with `LlmUnavailable`.
pub proof fn lemma_next_feature_needs_model(session: SessionView)
    requires
        session.active_index() is None,
    ensures
        session.next_feature_step(false) is Err,
        session.next_feature_step(false)->Err_0.kind == ErrorKind::LlmUnavailable,
{
}

/// Recording the model's proposal either fails and changes nothing, or plans
/// one more feature, with status `Planned`, and checks it out; what was planned
/// before keeps its status. The session then names a planned feature.
pub proof fn lemma_next_feature_recorded(
    session: SessionView,
    outcome: Result<Seq<char>, Seq<char>>,
)
    ensures
        ({
            let (after, result) = session.next_feature_recorded(outcome);
            &&& result is Err ==> after == session
            &&& result is Ok ==> {
                &&& after.consistent()
                &&& after.planned_features.len() == session.planned_features.len() + 1
                &&& after.planned_features.last().status == FeatureStatus::Planned
                &&& after.planned_features.last().description == result->Ok_0
                &&& after.next_feature_to_implement == Some(after.planned_features.last().name)
                &&& after.implemented_features_reports == session.implemented_features_reports
            }
            &&& same_session(session, after)
            &&& forall|j: int|
                0 <= j < session.planned_features.len()
                    ==> (#[trigger] after.planned_features[j]).status
                    == session.planned_features[j].status
        }),
{
    let (after, result) = session.next_feature_recorded(outcome);
    if result is Ok {
        let names = feature_names(after.planned_features);
        let at = session.planned_features.len() as int;
        lemma_first_index_exists(names, names[at], at);
    }
}

/// Recording a review either fails and changes nothing, or stores the report
/// for the feature under review and sets that feature's status: `Reviewed`,
/// with nothing checked out any more, exactly where the model is satisfied,
/// else `NeedsRework`, with the feature still checked out. No other feature
/// changes, and the session still names a planned feature, if any.
pub proof fn lemma_review_recorded(
    session: SessionView,
    changes_made: Seq<char>,
    outcome: Result<Seq<char>, Seq<char>>,
)
    requires
        keys_distinct(session.implemented_features_reports),
    ensures
        ({
            let (after, result) = session.review_recorded(changes_made, outcome);
            &&& result is Err ==> after == session
            &&& result is Ok ==> {
                let i = session.review_target()->Ok_0;
                let name = session.planned_features[i].name;
                &&& session.review_target() is Ok
                &&& outcome == Ok::<Seq<char>, Seq<char>>(result->Ok_0)
                &&& after.consistent()
                &&& keys_distinct(after.implemented_features_reports)
                &&& report_for(after.implemented_features_reports, name) == Some(changes_made)
                &&& forall|other: Seq<char>|
                    other != name ==> #[trigger] report_for(
                        after.implemented_features_reports,
                        other,
                    ) == report_for(session.implemented_features_reports, other)
                &&& is_satisfied(result->Ok_0) ==> {
                    &&& after.planned_features[i].status == FeatureStatus::Reviewed
                    &&& after.next_feature_to_implement is None
                }
                &&& !is_satisfied(result->Ok_0) ==> {
                    &&& after.planned_features[i].status == FeatureStatus::NeedsRework
                    &&& after.next_feature_to_implement == session.next_feature_to_implement
                }
                &&& forall|j: int|
                    0 <= j < session.planned_features.len() && j != i
                        ==> #[trigger] after.planned_features[j] == session.planned_features[j]
            }
            &&& same_session(session, after)
            &&& after.planned_features.len() == session.planned_features.len()
        }),
{
    let (after, result) = session.review_recorded(changes_made, outcome);
    if result is Ok {
        let i = session.review_target()->Ok_0;
        let name = session.next_feature_to_implement->0;
        lemma_first_index_is_first(feature_names(session.planned_features), name);
        lemma_with_report(session.implemented_features_reports, name, changes_made);
        assert(feature_names(after.planned_features) =~= feature_names(
            session.planned_features,
        ));
    }
}

/// Recording a reply either fails and changes nothing, or, where the model is
/// satisfied, sets the feature under review to `Reviewed` with nothing checked
/// out any more, or, where it is not, changes nothing at all. The reports stay
/// what they were in every case.
pub proof fn lemma_reply_recorded(session: SessionView, outcome: Result<Seq<char>, Seq<char>>)
    ensures
        ({
            let (after, result) = session.reply_recorded(outcome);
            &&& result is Err ==> after == session
            &&& result is Ok ==> {
                let i = session.reply_target()->Ok_0;
                &&& session.reply_target() is Ok
                &&& session.planned_features[i].status == FeatureStatus::NeedsRework
                &&& outcome == Ok::<Seq<char>, Seq<char>>(result->Ok_0)
                &&& after.consistent()
                &&& is_satisfied(result->Ok_0) ==> {
                    &&& after.planned_features[i].status == FeatureStatus::Reviewed
                    &&& after.next_feature_to_implement is None
                }
                &&& !is_satisfied(result->Ok_0) ==> after == session
                &&& forall|j: int|
                    0 <= j < session.planned_features.len() && j != i
                        ==> #[trigger] after.planned_features[j] == session.planned_features[j]
            }
            &&& after.implemented_features_reports == session.implemented_features_reports
            &&& same_session(session, after)
            &&& after.planned_features.len() == session.planned_features.len()
        }),
{
    let (after, result) = session.reply_recorded(outcome);
    if result is Ok {
        let name = session.next_feature_to_implement->0;
        lemma_first_index_is_first(feature_names(session.planned_features), name);
    }
}

/// A reply is refused with `InvalidStateTransition`, and changes nothing, while
/// the feature under review is not waiting for rework: right after it was
/// planned, and after it was accepted. This holds whether or not a model is
/// available, and whatever a call to the model would have returned.
pub proof fn lemma_reply_needs_rework(
    session: SessionView,
    reply: Seq<char>,
    llm_available: bool,
    outcome: Result<Seq<char>, Seq<char>>,
)
    requires
        session.review_target() is Ok,
        session.planned_features[session.review_target()->Ok_0].status
            != FeatureStatus::NeedsRework,
    ensures
        session.reply_request(reply, llm_available) is Err,
        session.reply_request(reply, llm_available)->Err_0.kind
            == ErrorKind::InvalidStateTransition,
        session.reply_recorded(outcome).0 == session,
        session.reply_recorded(outcome).1 is Err,
        session.reply_recorded(outcome).1->Err_0.kind == ErrorKind::InvalidStateTransition,
{
}

/// While nothing is checked out, as after a feature was accepted and until the
/// next one is requested, a report is refused with `InvalidStateTransition`
/// and a reply likewise, and nothing changes. This holds whether or not a
/// model is available, and whatever a call to the model would have returned.
pub proof fn lemma_nothing_checked_out(
    session: SessionView,
    text: Seq<char>,
    llm_available: bool,
    outcome: Result<Seq<char>, Seq<char>>,
)
    requires
        session.next_feature_to_implement is None,
    ensures
        session.review_request(text, llm_available) is Err,
        session.review_request(text, llm_available)->Err_0.kind
            == ErrorKind::InvalidStateTransition,
        session.reply_request(text, llm_available) is Err,
        session.reply_request(text, llm_available)->Err_0.kind
            == ErrorKind::InvalidStateTransition,
        session.reply_recorded(outcome).0 == session,
        session.reply_recorded(outcome).1 is Err,
        session.reply_recorded(outcome).1->Err_0.kind == ErrorKind::InvalidStateTransition,
        session.review_recorded(text, outcome).0 == session,
        session.review_recorded(text, outcome).1 is Err,
        session.review_recorded(text, outcome).1->Err_0.kind == ErrorKind::InvalidStateTransition,
{
}

/// What the session refuses, it refuses before the model is looked for: the
/// request for a review, and for the reading of a reply, gives the error that
/// recording would give, whether or not a model is available. The model is
/// missed only by a session that could go on: there the request fails with
/// `LlmUnavailable`.
pub proof fn lemma_session_is_looked_at_first(
    session: SessionView,
    text: Seq<char>,
    llm_available: bool,
)
    ensures
        session.review_target() is Err ==> session.review_request(text, llm_available) == Err::<
            Seq<ChatMessageView>,
            ErrorView,
        >(session.review_target()->Err_0),
        session.reply_target() is Err ==> session.reply_request(text, llm_available) == Err::<
            Seq<ChatMessageView>,
            ErrorView,
        >(session.reply_target()->Err_0),
        session.review_target() is Ok ==> session.review_request(text, false) == Err::<
            Seq<ChatMessageView>,
            ErrorView,
        >(ErrorView::llm_unavailable(PURPOSE_REVIEW@)),
        session.reply_target() is Ok ==> session.reply_request(text, false) == Err::<
            Seq<ChatMessageView>,
            ErrorView,
        >(ErrorView::llm_unavailable(PURPOSE_REPLY@)),
        session.review_target() is Ok ==> session.review_request(text, true) is Ok,
        session.reply_target() is Ok ==> session.reply_request(text, true) is Ok,
{
}

/// A feature becomes `Reviewed` only by a verdict of satisfied on the feature
/// under review, given on a report or on a reply.
pub proof fn lemma_reviewed_only_when_satisfied(
    session: SessionView,
    text: Seq<char>,
    outcome: Result<Seq<char>, Seq<char>>,
    j: int,
)
    ensures
        !newly_reviewed(session, session.next_feature_recorded(outcome).0, j),
        newly_reviewed(session, session.review_recorded(text, outcome).0, j) ==> {
            &&& outcome is Ok
            &&& is_satisfied(outcome->Ok_0)
            &&& session.review_target() == Ok::<int, ErrorView>(j)
        },
        newly_reviewed(session, session.reply_recorded(outcome).0, j) ==> {
            &&& outcome is Ok
            &&& is_satisfied(outcome->Ok_0)
            &&& session.reply_target() == Ok::<int, ErrorView>(j)
        },
{
    lemma_next_feature_recorded(session, outcome);
    if session.review_target() is Ok {
        lemma_first_index_is_first(
            feature_names(session.planned_features),
            session.next_feature_to_implement->0,
        );
    }
}

/// Sets the status of the feature at `index`.
fn set_status(features: &mut Vec<Feature>, index: usize, status: FeatureStatus)
    requires
        index < old(features)@.len(),
    ensures
        features_view(final(features)@) == features_view(old(features)@).update(
            index as int,
            FeatureView { status, ..old(features)@[index as int]@ },
        ),
{
    let updated = Feature {
        name: features[index].name.clone(),
        description: features[index].description.clone(),
        status,
    };
    features.set(index, updated);
    assert(features_view(features@) =~= features_view(old(features)@).update(
        index as int,
        FeatureView { status, ..old(features)@[index as int]@ },
    ));
}

impl SessionState {
    /// The name and the index of the feature under review.
    fn review_target(&self) -> (target: Result<(String, usize), DesignError>)
        ensures
            match target {
                Ok((name, index)) => self@.review_target() == Ok::<int, ErrorView>(index as int)
                    && index < self.planned_features@.len() && self@.next_feature_to_implement
                    == Some(name@) && self.planned_features@[index as int].name@ == name@,
                Err(error) => self@.review_target() == Err::<int, ErrorView>(error@),
            },
    {
        match &self.next_feature_to_implement {
            None => Err(DesignError::no_active_feature()),
            Some(name) => match find_feature(&self.planned_features, name) {
                Some(index) => {
                    proof {
                        lemma_first_index_is_first(feature_names(self@.planned_features), name@);
                    }
                    Ok((name.clone(), index))
                },
                None => Err(DesignError::feature_not_found(name.as_str())),
            },
        }
    }

    /// First step of requesting the next feature. Where a feature is checked
    /// out and planned, its specification is the answer and the model is not
    /// needed. Otherwise the model must be available, and the step holds the
    /// messages to send to it.
    pub fn request_next_feature(&self, llm_available: bool) -> (step: Result<
        NextFeatureStep,
        DesignError,
    >)
        ensures
            step_view(step) == self@.next_feature_step(llm_available),
    {
        if let Some(name) = &self.next_feature_to_implement {
            if let Some(index) = find_feature(&self.planned_features, name) {
                let description = self.planned_features[index].description.clone();
                return Ok(NextFeatureStep::Cached(description));
            }
        }
        if !llm_available {
            return Err(DesignError::llm_unavailable(PURPOSE_NEXT_FEATURE));
        }
        Ok(NextFeatureStep::AskModel(build_next_feature_messages(self)))
    }

    /// Plans `proposal` as a new feature and checks it out. Returns its
    /// specification.
    pub fn plan_feature(&mut self, proposal: FeatureProposal) -> (description: String)
        ensures
            final(self)@ == old(self)@.with_feature(proposal@),
            final(self).wf() == old(self).wf(),
            description@ == proposal@.description,
    {
        let description = proposal.description.clone();
        let name = proposal.name.clone();
        self.planned_features.push(
            Feature {
                name: proposal.name,
                description: proposal.description,
                status: FeatureStatus::Planned,
            },
        );
        self.next_feature_to_implement = Some(name);
        assert(self@.planned_features =~= old(self)@.with_feature(proposal@).planned_features);
        description
    }

    /// Second step of requesting the next feature: `outcome` is how the call to
    /// the model ended. A proposal that can be read is planned and checked out,
    /// and its specification returned. A failed call or an answer that cannot be
    /// read is an error, and the session stays as it was.
    pub fn record_next_feature(&mut self, outcome: LlmOutcome) -> (result: Result<
        String,
        DesignError,
    >)
        ensures
            (final(self)@, text_result_view(result)) == old(self)@.next_feature_recorded(
                outcome_view(outcome),
            ),
            final(self).wf() == old(self).wf(),
    {
        match outcome {
            Err(detail) => Err(DesignError::llm_request_failed(detail)),
            Ok(raw) => match parse_proposal(raw.as_str()) {
                Ok(proposal) => Ok(self.plan_feature(proposal)),
                Err(error) => Err(error),
            },
        }
    }

    /// First step of submitting an implementation report: the messages that ask
    /// the model to review `changes_made` for the feature that is checked out.
    /// A session without a feature under review is refused first, whether or
    /// not there is a model; a session that could go on needs the model.
    pub fn request_feature_review(
        &self,
        changes_made: &str,
        llm_available: bool,
    ) -> (request: Result<Vec<ChatMessage>, DesignError>)
        ensures
            request_view(request) == self@.review_request(changes_made@, llm_available),
    {
        let index = match self.review_target() {
            Err(error) => {
                return Err(error);
            },
            Ok((_, index)) => index,
        };
        if !llm_available {
            return Err(DesignError::llm_unavailable(PURPOSE_REVIEW));
        }
        Ok(
            build_review_messages(
                self.initial_description.as_str(),
                &self.planned_features[index],
                changes_made,
            ),
        )
    }

    /// Applies the verdict on the report `changes_made` for the feature at
    /// `index`: stores the report, and sets the feature's status.
    pub fn apply_review(&mut self, index: usize, changes_made: &str, verdict: &Verdict)
        requires
            old(self).wf(),
            index < old(self)@.planned_features.len(),
        ensures
            final(self).wf(),
            final(self)@ == old(self)@.after_review(
                index as int,
                changes_made@,
                verdict is Satisfied,
            ),
    {
        let name = self.planned_features[index].name.clone();
        proof {
            lemma_with_report(old(self)@.implemented_features_reports, name@, changes_made@);
        }
        self.implemented_features_reports.insert(name, changes_made.to_owned());
        match verdict {
            Verdict::Satisfied => {
                set_status(&mut self.planned_features, index, FeatureStatus::Reviewed);
                self.next_feature_to_implement = None;
            },
            Verdict::NeedsWork(_) => {
                set_status(&mut self.planned_features, index, FeatureStatus::NeedsRework);
            },
        }
    }

    /// Second step of submitting an implementation report: `outcome` is how the
    /// call to the model ended. The report is stored whatever the verdict. An
    /// accepted feature becomes `Reviewed` and is no longer checked out; any
    /// other becomes `NeedsRework` and stays checked out. The model's answer is
    /// returned as it came. A failed call is an error, and so is a session
    /// without a feature under review; the session then stays as it was.
    pub fn record_feature_review(
        &mut self,
        changes_made: &str,
        outcome: LlmOutcome,
    ) -> (result: Result<String, DesignError>)
        requires
            old(self).wf(),
        ensures
            final(self).wf(),
            (final(self)@, text_result_view(result)) == old(self)@.review_recorded(
                changes_made@,
                outcome_view(outcome),
            ),
    {
        let index = match self.review_target() {
            Err(error) => {
                return Err(error);
            },
            Ok((_, index)) => index,
        };
        match outcome {
            Err(detail) => Err(DesignError::llm_request_failed(detail)),
            Ok(raw) => {
                let verdict = parse_verdict(raw.as_str());
                self.apply_review(index, changes_made, &verdict);
                Ok(raw)
            },
        }
    }

    /// The index of the feature that a reply is about, and its report.
    fn reply_target(&self) -> (target: Result<(usize, &String), DesignError>)
        ensures
            match target {
                Ok((index, report)) => self@.reply_target() == Ok::<int, ErrorView>(index as int)
                    && index < self.planned_features@.len() && report_for(
                    self@.implemented_features_reports,
                    self@.planned_features[index as int].name,
                ) == Some(report@),
                Err(error) => self@.reply_target() == Err::<int, ErrorView>(error@),
            },
    {
        let (name, index) = match self.review_target() {
            Err(error) => {
                return Err(error);
            },
            Ok(found) => found,
        };
        match self.planned_features[index].status {
            FeatureStatus::NeedsRework => {},
            _ => {
                return Err(DesignError::not_in_rework(name.as_str()));
            },
        }
        match self.implemented_features_reports.get(&name) {
            Some(report) => Ok((index, report)),
            None => Err(DesignError::no_report(name.as_str())),
        }
    }

    /// First step of submitting a reply to a review: the messages that ask the
    /// model to read `reply`. The feature that is checked out must be waiting
    /// for rework and have a report: a session where it does not is refused
    /// first, whether or not there is a model; a session that could go on
    /// needs the model.
    pub fn request_review_reply(&self, reply: &str, llm_available: bool) -> (request: Result<
        Vec<ChatMessage>,
        DesignError,
    >)
        ensures
            request_view(request) == self@.reply_request(reply@, llm_available),
    {
        let (index, report) = match self.reply_target() {
            Err(error) => {
                return Err(error);
            },
            Ok(found) => found,
        };
        if !llm_available {
            return Err(DesignError::llm_unavailable(PURPOSE_REPLY));
        }
        Ok(
            build_reply_messages(
                self.initial_description.as_str(),
                &self.planned_features[index],
                report.as_str(),
                reply,
            ),
        )
    }

    /// Applies the verdict on a reply about the feature at `index`.
    pub fn apply_reply(&mut self, index: usize, verdict: &Verdict)
        requires
            index < old(self)@.planned_features.len(),
        ensures
            final(self).wf() == old(self).wf(),
            final(self)@ == old(self)@.after_reply(index as int, verdict is Satisfied),
    {
        match verdict {
            Verdict::Satisfied => {
                set_status(&mut self.planned_features, index, FeatureStatus::Reviewed);
                self.next_feature_to_implement = None;
            },
            Verdict::NeedsWork(_) => {},
        }
    }

    /// Second step of submitting a reply to a review: `outcome` is how the call
    /// to the model ended. An accepted feature becomes `Reviewed` and is no
    /// longer checked out; otherwise nothing changes. The model's answer is
    /// returned as it came. A failed call is an error, and so is a session
    /// whose checked-out feature does not wait for rework; the session then
    /// stays as it was.
    pub fn record_review_reply(&mut self, outcome: LlmOutcome) -> (result: Result<
        String,
        DesignError,
    >)
        ensures
            final(self).wf() == old(self).wf(),
            (final(self)@, text_result_view(result)) == old(self)@.reply_recorded(
                outcome_view(outcome),
            ),
    {
        let index = match self.reply_target() {
            Err(error) => {
                return Err(error);
            },
            Ok((index, _)) => index,
        };
        match outcome {
            Err(detail) => Err(DesignError::llm_request_failed(detail)),
            Ok(raw) => {
                let verdict = parse_verdict(raw.as_str());
                self.apply_reply(index, &verdict);
                Ok(raw)
            },
        }
    }
}

} // verus!
