//! The messages that are sent to the designer model.

use crate::game_design::reports::{ReportLine, ReportMap};
use crate::game_design::designer_llm::{messages_view, ChatMessage, ChatMessageView};
use crate::game_design::state::{
    features_view, Feature, FeatureStatus, FeatureView, SessionState, SessionView,
};
use crate::game_design::text::join3;
use vstd::prelude::*;

verus! {

/// The role of a message that instructs the model.
pub const ROLE_SYSTEM: &'static str = "system";

/// The role of a message that carries the request.
pub const ROLE_USER: &'static str = "user";

/// How every prompt begins, before the design document.
pub const DOCUMENT_HEADING: &'static str = "Based on this game design document:\n";

/// The heading of the list of planned features.
pub const PLANNED_HEADING: &'static str = "Already planned features:\n";

/// The heading of the list of implementation reports.
pub const REPORTS_HEADING: &'static str =
    "Already implemented features with their implementation reports:\n";

/// What the model is told to be when it proposes the next feature.
pub const NEXT_FEATURE_BRIEF: &'static str = "You are an expert game designer and software architect. \
    Your task is to determine the next small, focused feature to implement in a \
    game development project. The feature should be something that can be \
    completed quickly (like a single function, small component, or basic UI element). \
    You will be given the game design document and information about what has \
    already been planned and implemented. Respond with a JSON object containing \
    the feature name and a concise description (2-3 sentences).";

/// What the model is asked for when it proposes the next feature.
pub const NEXT_FEATURE_REQUEST: &'static str = "Please provide the next small, focused feature that should be implemented. \
    The feature should be something that can be completed in a short amount of time \
    (e.g., a single function, a small component, a basic UI element). \
    Include a brief title and a concise specification (2-3 sentences) that explains \
    what needs to be implemented and why it's important. \
    Format your response as JSON with 'name' and 'description' fields:\n\
    {\n  \"name\": \"Feature Title\",\n  \"description\": \"Concise specification...\"\n}\n\
    Only return the JSON, nothing else.";

/// What the model is told to be when it reviews an implementation report.
pub const REVIEW_BRIEF: &'static str = "You are an expert game designer and software architect. \
    Your task is to review implementation reports for game features. \
    You will be given the game design document, the feature specification, \
    and the developer's implementation report. Review the implementation \
    and provide feedback. If you have questions, ask them clearly. \
    If you're satisfied, respond with 'SATISFIED'.";

/// What the model is asked for when it reviews an implementation report.
pub const REVIEW_REQUEST: &'static str = "Please review this implementation report. Check if:\n\
    1. The implementation matches the feature specification\n\
    2. There are any potential issues or missing elements\n\
    3. The implementation aligns with the overall game design\n\n\
    If you have any questions about the implementation, please ask them clearly.\n\
    If you're satisfied with the implementation, respond with 'SATISFIED'.\n\
    Otherwise, provide your feedback and any specific questions.";

/// What the model is told to be when it reads a reply to its review.
pub const REPLY_BRIEF: &'static str = "You are an expert game designer and software architect. \
    Your task is to review replies to your questions about feature implementations. \
    You will be given the game design document, the feature specification, \
    the previous implementation report, and the developer's reply to your questions. \
    Review the reply and provide feedback. If you're satisfied, respond with 'SATISFIED'. \
    If you have additional questions, ask them clearly.";

/// What the model is asked for when it reads a reply to its review.
pub const REPLY_REQUEST: &'static str = "Please review the developer's reply to your previous questions. \
    If you're satisfied with the answers and the implementation, respond with 'SATISFIED'. \
    If you have additional questions or concerns, please ask them clearly. \
    If the implementation still needs work, explain what is missing.";

/// The name by which a status is shown to the model.
pub open spec fn status_name(status: FeatureStatus) -> Seq<char> {
    match status {
        FeatureStatus::Planned => "Planned"@,
        FeatureStatus::InProgress => "InProgress"@,
        FeatureStatus::Implemented => "Implemented"@,
        FeatureStatus::Reviewed => "Reviewed"@,
        FeatureStatus::NeedsRework => "NeedsRework"@,
    }
}

/// The name by which a status is shown to the model.
pub fn status_label(status: FeatureStatus) -> (label: &'static str)
    ensures
        label@ == status_name(status),
{
    match status {
        FeatureStatus::Planned => "Planned",
        FeatureStatus::InProgress => "InProgress",
        FeatureStatus::Implemented => "Implemented",
        FeatureStatus::Reviewed => "Reviewed",
        FeatureStatus::NeedsRework => "NeedsRework",
    }
}

/// A message with the given role and content.
pub fn message(role: &str, content: String) -> (m: ChatMessage)
    ensures
        m@ == (ChatMessageView { role: role@, content: content@ }),
{
    ChatMessage { role: role.to_owned(), content }
}

/// The opening of every prompt: the heading, the design document, a blank line.
pub open spec fn document_part(initial_description: Seq<char>) -> Seq<char> {
    DOCUMENT_HEADING@ + initial_description + "\n\n"@
}

/// The opening of every prompt: the heading, the design document, a blank line.
pub fn document_section(initial_description: &str) -> (text: String)
    ensures
        text@ == document_part(initial_description@),
{
    join3(DOCUMENT_HEADING, initial_description, "\n\n")
}

/// One planned feature as the model sees it: its name and its status.
pub open spec fn planned_line(feature: FeatureView) -> Seq<char> {
    "- "@ + feature.name + " ("@ + status_name(feature.status) + ")\n"@
}

/// The planned features as the model sees them, one line each, in order.
pub open spec fn planned_lines(features: Seq<FeatureView>) -> Seq<char>
    decreases features.len(),
{
    if features.len() == 0 {
        Seq::empty()
    } else {
        planned_lines(features.drop_last()) + planned_line(features.last())
    }
}

/// The part of the prompt on planned features: nothing where none is planned,
/// else a heading, the lines and a blank line.
pub open spec fn planned_part(features: Seq<FeatureView>) -> Seq<char> {
    if features.len() == 0 {
        Seq::empty()
    } else {
        PLANNED_HEADING@ + planned_lines(features) + "\n"@
    }
}

/// One report as the model sees it: the feature's name and the report.
pub open spec fn report_line(line: ReportLine) -> Seq<char> {
    "- "@ + line.0 + ": "@ + line.1 + "\n"@
}

/// The reports as the model sees them, one line each, in order.
pub open spec fn report_lines(lines: Seq<ReportLine>) -> Seq<char>
    decreases lines.len(),
{
    if lines.len() == 0 {
        Seq::empty()
    } else {
        report_lines(lines.drop_last()) + report_line(lines.last())
    }
}

/// The part of the prompt on implementation reports: nothing where there is
/// none, else a heading, the lines and a blank line.
pub open spec fn reports_part(lines: Seq<ReportLine>) -> Seq<char> {
    if lines.len() == 0 {
        Seq::empty()
    } else {
        REPORTS_HEADING@ + report_lines(lines) + "\n"@
    }
}

/// The request for the next feature: the design document, what is planned,
/// what was reported, and what to answer.
pub open spec fn next_feature_prompt(session: SessionView) -> Seq<char> {
    document_part(session.initial_description) + planned_part(session.planned_features)
        + reports_part(session.implemented_features_reports) + NEXT_FEATURE_REQUEST@
}

/// The two messages that ask the model for the next feature.
pub open spec fn next_feature_messages(session: SessionView) -> Seq<ChatMessageView> {
    seq![
        ChatMessageView { role: ROLE_SYSTEM@, content: NEXT_FEATURE_BRIEF@ },
        ChatMessageView { role: ROLE_USER@, content: next_feature_prompt(session) },
    ]
}

/// The part of a review prompt that presents the feature under review.
pub open spec fn feature_part(feature: FeatureView) -> Seq<char> {
    "Feature that was implemented:\nName: "@ + feature.name + "\nDescription: "@
        + feature.description + "\n\n"@
}

/// The request to review a report on `feature`.
pub open spec fn review_prompt(
    initial_description: Seq<char>,
    feature: FeatureView,
    changes_made: Seq<char>,
) -> Seq<char> {
    document_part(initial_description) + feature_part(feature)
        + "Implementation report from developer:\n"@ + changes_made + "\n\n"@ + REVIEW_REQUEST@
}

/// The two messages that ask the model to review a report on `feature`.
pub open spec fn review_messages(
    initial_description: Seq<char>,
    feature: FeatureView,
    changes_made: Seq<char>,
) -> Seq<ChatMessageView> {
    seq![
        ChatMessageView { role: ROLE_SYSTEM@, content: REVIEW_BRIEF@ },
        ChatMessageView {
            role: ROLE_USER@,
            content: review_prompt(initial_description, feature, changes_made),
        },
    ]
}

/// The request to read the developer's reply to a review of `feature`.
pub open spec fn reply_prompt(
    initial_description: Seq<char>,
    feature: FeatureView,
    previous_report: Seq<char>,
    reply: Seq<char>,
) -> Seq<char> {
    document_part(initial_description) + feature_part(feature)
        + "Previous implementation report from developer:\n"@ + previous_report + "\n\n"@
        + "Developer's reply to review questions:\n"@ + reply + "\n\n"@ + REPLY_REQUEST@
}

/// The two messages that ask the model to read a reply to its review.
pub open spec fn reply_messages(
    initial_description: Seq<char>,
    feature: FeatureView,
    previous_report: Seq<char>,
    reply: Seq<char>,
) -> Seq<ChatMessageView> {
    seq![
        ChatMessageView { role: ROLE_SYSTEM@, content: REPLY_BRIEF@ },
        ChatMessageView {
            role: ROLE_USER@,
            content: reply_prompt(initial_description, feature, previous_report, reply),
        },
    ]
}

/// The line that presents one planned feature.
fn planned_line_text(feature: &Feature) -> (text: String)
    ensures
        text@ == planned_line(feature@),
{
    let mut text = "- ".to_owned();
    text.append(feature.name.as_str());
    text.append(" (");
    text.append(status_label(feature.status));
    text.append(")\n");
    text
}

/// The part of the prompt on planned features.
pub fn planned_section(features: &Vec<Feature>) -> (text: String)
    ensures
        text@ == planned_part(features_view(features@)),
{
    let ghost all = features_view(features@);
    if features.len() == 0 {
        return String::new();
    }
    let mut lines = String::new();
    let mut i: usize = 0;
    assert(all.take(0) =~= Seq::empty());
    while i < features.len()
        invariant
            i <= features@.len(),
            all == features_view(features@),
            lines@ == planned_lines(all.take(i as int)),
        decreases features@.len() - i,
    {
        let line = planned_line_text(&features[i]);
        lines.append(line.as_str());
        proof {
            let upto = all.take(i + 1);
            assert(upto.drop_last() =~= all.take(i as int));
            assert(upto.last() == features@[i as int]@);
        }
        i += 1;
    }
    assert(all.take(i as int) =~= all);
    join3(PLANNED_HEADING, lines.as_str(), "\n")
}

/// The line that presents one report.
fn report_line_text(name: &str, report: &str) -> (text: String)
    ensures
        text@ == report_line((name@, report@)),
{
    let mut text = "- ".to_owned();
    text.append(name);
    text.append(": ");
    text.append(report);
    text.append("\n");
    text
}

/// The part of the prompt on implementation reports.
pub fn reports_section(reports: &ReportMap) -> (text: String)
    ensures
        text@ == reports_part(reports@),
{
    let ghost all = reports@;
    if reports.is_empty() {
        return String::new();
    }
    let mut lines = String::new();
    let mut i: usize = 0;
    assert(all.take(0) =~= Seq::empty());
    while i < reports.len()
        invariant
            i <= reports@.len(),
            all == reports@,
            lines@ == report_lines(all.take(i as int)),
        decreases reports@.len() - i,
    {
        let line = report_line_text(reports.name_at(i).as_str(), reports.text_at(i).as_str());
        lines.append(line.as_str());
        proof {
            let upto = all.take(i + 1);
            assert(upto.drop_last() =~= all.take(i as int));
            assert(upto.last() == all[i as int]);
        }
        i += 1;
    }
    assert(all.take(i as int) =~= all);
    join3(REPORTS_HEADING, lines.as_str(), "\n")
}

/// The two messages `brief` and `prompt`: what the model is to be, and what it
/// is asked.
fn brief_and_prompt(brief: &str, prompt: String) -> (messages: Vec<ChatMessage>)
    ensures
        messages_view(messages@) == seq![
            ChatMessageView { role: ROLE_SYSTEM@, content: brief@ },
            ChatMessageView { role: ROLE_USER@, content: prompt@ },
        ],
{
    let mut messages: Vec<ChatMessage> = Vec::new();
    messages.push(message(ROLE_SYSTEM, brief.to_owned()));
    messages.push(message(ROLE_USER, prompt));
    assert(messages_view(messages@) =~= seq![
        ChatMessageView { role: ROLE_SYSTEM@, content: brief@ },
        ChatMessageView { role: ROLE_USER@, content: prompt@ },
    ]);
    messages
}

/// Builds the messages that ask the model for the next feature of `session`.
pub fn build_next_feature_messages(session: &SessionState) -> (messages: Vec<ChatMessage>)
    ensures
        messages_view(messages@) == next_feature_messages(session@),
{
    let mut prompt = document_section(session.initial_description.as_str());
    prompt.append(planned_section(&session.planned_features).as_str());
    prompt.append(reports_section(&session.implemented_features_reports).as_str());
    prompt.append(NEXT_FEATURE_REQUEST);
    brief_and_prompt(NEXT_FEATURE_BRIEF, prompt)
}

/// The part of a review prompt that presents the feature under review.
fn feature_section(feature: &Feature) -> (text: String)
    ensures
        text@ == feature_part(feature@),
{
    let mut text = "Feature that was implemented:\nName: ".to_owned();
    text.append(feature.name.as_str());
    text.append("\nDescription: ");
    text.append(feature.description.as_str());
    text.append("\n\n");
    text
}

/// Builds the messages that ask the model to review the report `changes_made`
/// on `feature`.
pub fn build_review_messages(
    initial_description: &str,
    feature: &Feature,
    changes_made: &str,
) -> (messages: Vec<ChatMessage>)
    ensures
        messages_view(messages@) == review_messages(
            initial_description@,
            feature@,
            changes_made@,
        ),
{
    let mut prompt = document_section(initial_description);
    prompt.append(feature_section(feature).as_str());
    prompt.append("Implementation report from developer:\n");
    prompt.append(changes_made);
    prompt.append("\n\n");
    prompt.append(REVIEW_REQUEST);
    brief_and_prompt(REVIEW_BRIEF, prompt)
}

/// Builds the messages that ask the model to read the developer's `reply` to
/// its review of `feature`, whose latest report was `previous_report`.
pub fn build_reply_messages(
    initial_description: &str,
    feature: &Feature,
    previous_report: &str,
    reply: &str,
) -> (messages: Vec<ChatMessage>)
    ensures
        messages_view(messages@) == reply_messages(
            initial_description@,
            feature@,
            previous_report@,
            reply@,
        ),
{
    let mut prompt = document_section(initial_description);
    prompt.append(feature_section(feature).as_str());
    prompt.append("Previous implementation report from developer:\n");
    prompt.append(previous_report);
    prompt.append("\n\n");
    prompt.append("Developer's reply to review questions:\n");
    prompt.append(reply);
    prompt.append("\n\n");
    prompt.append(REPLY_REQUEST);
    brief_and_prompt(REPLY_BRIEF, prompt)
}

} // verus!
