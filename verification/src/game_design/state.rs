//! Data structures for session state, features and chat messages.

use crate::game_design::designer_llm::{
    clone_messages, messages_view, ChatMessage, ChatMessageView,
};
use crate::game_design::lookup::{
    first_index, is_first_index, lemma_first_index_absent, lemma_first_index_found,
};
use crate::game_design::reports::{ReportLine, ReportMap};
use crate::game_design::text::text_view;
use vstd::prelude::*;

verus! {

/// Status of a feature.
#[derive(Debug, Clone, Copy, PartialEq, Eq, Structural)]
pub enum FeatureStatus {
    Planned,
    InProgress,
    Implemented,
    Reviewed,
    NeedsRework,
}

/// A designed feature.
#[derive(Debug, PartialEq, Eq)]
pub struct Feature {
    /// Identity of the feature within its session.
    pub name: String,
    /// Detailed specification.
    pub description: String,
    pub status: FeatureStatus,
}

/// The mathematical value of a [`Feature`].
pub struct FeatureView {
    pub name: Seq<char>,
    pub description: Seq<char>,
    pub status: FeatureStatus,
}

impl View for Feature {
    type V = FeatureView;

    open spec fn view(&self) -> FeatureView {
        FeatureView { name: self.name@, description: self.description@, status: self.status }
    }
}

impl Clone for Feature {
    fn clone(&self) -> (copy: Self)
        ensures
            copy@ == self@,
    {
        Feature {
            name: self.name.clone(),
            description: self.description.clone(),
            status: self.status,
        }
    }
}

/// The values of a list of features, in order.
pub open spec fn features_view(features: Seq<Feature>) -> Seq<FeatureView> {
    Seq::new(features.len(), |i: int| features[i]@)
}

/// The names of a list of features, in order.
pub open spec fn feature_names(features: Seq<FeatureView>) -> Seq<Seq<char>> {
    Seq::new(features.len(), |i: int| features[i].name)
}

/// A copy of `features`.
pub fn clone_features(features: &Vec<Feature>) -> (copy: Vec<Feature>)
    ensures
        features_view(copy@) == features_view(features@),
{
    let mut copy: Vec<Feature> = Vec::new();
    let mut i: usize = 0;
    while i < features.len()
        invariant
            i <= features@.len(),
            copy@.len() == i,
            forall|j: int| 0 <= j < i ==> copy@[j]@ == features@[j]@,
        decreases features@.len() - i,
    {
        copy.push(features[i].clone());
        i += 1;
    }
    assert(features_view(copy@) =~= features_view(features@));
    copy
}

/// The index of the first feature called `name`, if there is one.
pub fn find_feature(features: &Vec<Feature>, name: &String) -> (found: Option<usize>)
    ensures
        match found {
            Some(i) => first_index(feature_names(features_view(features@)), name@) == Some(
                i as int,
            ),
            None => first_index(feature_names(features_view(features@)), name@) is None,
        },
{
    let ghost names = feature_names(features_view(features@));
    let mut i: usize = 0;
    while i < features.len()
        invariant
            i <= features@.len(),
            names == feature_names(features_view(features@)),
            forall|j: int| 0 <= j < i ==> names[j] != name@,
        decreases features@.len() - i,
    {
        if features[i].name == *name {
            proof {
                assert(is_first_index(names, name@, i as int));
                lemma_first_index_found(names, name@, i as int);
            }
            return Some(i);
        }
        i += 1;
    }
    proof {
        lemma_first_index_absent(names, name@);
    }
    None
}

/// The state of a single game design session.
#[derive(Debug, PartialEq, Eq)]
pub struct SessionState {
    /// Unique across the store, fixed at creation.
    pub id: String,
    /// The design brief, fixed at creation.
    pub initial_description: String,
    /// The conversation history with the designer model for this session.
    pub llm_chat_history: Vec<ChatMessage>,
    /// The features planned so far, in the order in which they were proposed.
    pub planned_features: Vec<Feature>,
    /// The latest implementation report submitted for each feature.
    pub implemented_features_reports: ReportMap,
    /// The name of the feature that is checked out for implementation or
    /// review, if any.
    pub next_feature_to_implement: Option<String>,
}

/// The mathematical value of a [`SessionState`].
pub struct SessionView {
    pub id: Seq<char>,
    pub initial_description: Seq<char>,
    pub llm_chat_history: Seq<ChatMessageView>,
    pub planned_features: Seq<FeatureView>,
    pub implemented_features_reports: Seq<ReportLine>,
    pub next_feature_to_implement: Option<Seq<char>>,
}

impl SessionView {
    /// A session as it is right after creation: no history, no features, no
    /// reports, nothing checked out.
    pub open spec fn fresh(id: Seq<char>, initial_description: Seq<char>) -> SessionView {
        SessionView {
            id,
            initial_description,
            llm_chat_history: Seq::empty(),
            planned_features: Seq::empty(),
            implemented_features_reports: Seq::empty(),
            next_feature_to_implement: None,
        }
    }

    /// The index of the planned feature that is checked out: the first one
    /// whose name is `next_feature_to_implement`.
    pub open spec fn active_index(self) -> Option<int> {
        match self.next_feature_to_implement {
            Some(name) => first_index(feature_names(self.planned_features), name),
            None => None,
        }
    }

    /// Where a feature is checked out, it is one of the planned features.
    pub open spec fn consistent(self) -> bool {
        self.next_feature_to_implement is Some ==> self.active_index() is Some
    }
}

impl View for SessionState {
    type V = SessionView;

    open spec fn view(&self) -> SessionView {
        SessionView {
            id: self.id@,
            initial_description: self.initial_description@,
            llm_chat_history: messages_view(self.llm_chat_history@),
            planned_features: features_view(self.planned_features@),
            implemented_features_reports: self.implemented_features_reports@,
            next_feature_to_implement: text_view(self.next_feature_to_implement),
        }
    }
}

impl SessionState {
    /// The invariant of the type: no feature has two reports.
    pub open spec fn wf(&self) -> bool {
        self.implemented_features_reports.wf()
    }

    /// Creates the state of a new session.
    pub fn new(id: String, initial_description: String) -> (session: Self)
        ensures
            session.wf(),
            session@ == SessionView::fresh(id@, initial_description@),
    {
        let session = SessionState {
            id,
            initial_description,
            llm_chat_history: Vec::new(),
            planned_features: Vec::new(),
            implemented_features_reports: ReportMap::new(),
            next_feature_to_implement: None,
        };
        assert(session@.llm_chat_history =~= Seq::empty());
        assert(session@.planned_features =~= Seq::empty());
        session
    }
}

impl Clone for SessionState {
    fn clone(&self) -> (copy: Self)
        ensures
            copy@ == self@,
    {
        let next = match &self.next_feature_to_implement {
            Some(name) => Some(name.clone()),
            None => None,
        };
        SessionState {
            id: self.id.clone(),
            initial_description: self.initial_description.clone(),
            llm_chat_history: clone_messages(&self.llm_chat_history),
            planned_features: clone_features(&self.planned_features),
            implemented_features_reports: self.implemented_features_reports.clone(),
            next_feature_to_implement: next,
        }
    }
}

} // verus!
