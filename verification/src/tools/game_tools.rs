//! The tools of the game designer: which calls there are, which arguments
//! they need, and what they answer.

use crate::game_design::designer_llm::{
    messages_view, outcome_view, ChatMessage, ChatMessageView, LlmOutcome,
};
use crate::game_design::error::{DesignError, ErrorView};
use crate::game_design::json::{json_text_member, json_text_members};
use crate::game_design::prompt::{message, ROLE_SYSTEM, ROLE_USER};
use crate::game_design::proposal::member;
use crate::game_design::session::loaded_view;
use crate::game_design::state::{SessionState, SessionView};
use crate::game_design::text::{join2, join3, same_text, text_view};
use crate::game_design::workflow::text_result_view;
use vstd::prelude::*;

verus! {

/// The name of the server.
pub const SERVER_NAME: &'static str = "game-designer";

/// What the server tells its clients about itself.
pub const SERVER_INSTRUCTIONS: &'static str = "This server provides tools for managing a game design process. \
    You can create design sessions, get an overview, receive the next feature to implement, \
    submit a review of implemented features, reply to questions from the review, \
    and ask ad-hoc questions about the current feature or design.";

/// The tool that creates a session.
pub const TOOL_DESIGN_NEW: &'static str = "designNew";

/// The tool that shows the design document of a session.
pub const TOOL_DESIGN_OVERVIEW: &'static str = "designOverview";

/// The tool that gives the next feature to implement.
pub const TOOL_NEXT_FEATURE: &'static str = "nextFeature";

/// The tool that submits an implementation report.
pub const TOOL_FEATURE_REVIEW: &'static str = "featureReview";

/// The tool that replies to the questions of a review.
pub const TOOL_REVIEW_REPLY: &'static str = "reviewReply";

/// The tool that asks a question about the design; it is registered and not served yet.
pub const TOOL_FEATURE_ASK: &'static str = "featureAsk";

/// The argument that names the session.
pub const ARG_SESSION_NAME: &'static str = "sessionName";

/// The argument of `designNew` that describes the game.
pub const ARG_GAME_DESCRIPTION: &'static str = "gameDescription";

/// The argument of `featureReview` that holds the report.
pub const ARG_CHANGES_MADE: &'static str = "changesMade";

/// The argument of `reviewReply` that holds the reply.
pub const ARG_CONTENT: &'static str = "content";

/// The argument of `featureAsk` that holds the question.
pub const ARG_QUESTION: &'static str = "question";

/// The command-line option that names the session.
pub const OPTION_SESSION_NAME: &'static str = "--session-name";

/// The command-line option that describes the game.
pub const OPTION_GAME_DESCRIPTION: &'static str = "--game-description";

/// The command-line option that holds the report.
pub const OPTION_CHANGES_MADE: &'static str = "--changes-made";

/// The command-line option that holds the reply.
pub const OPTION_CONTENT: &'static str = "--content";

/// The command-line option that holds the question.
pub const OPTION_QUESTION: &'static str = "--question";

/// What the model is told to be when it writes a design document.
pub const DESIGN_BRIEF: &'static str = "You are an expert game designer. Your task is to create detailed and comprehensive game design documents based on brief descriptions.";

/// How the request for a design document begins, before the description.
pub const DESIGN_REQUEST_HEAD: &'static str = "Create a comprehensive game design document for a game with this description: '";

/// How the request for a design document ends, after the description.
pub const DESIGN_REQUEST_TAIL: &'static str = "'.\nInclude the following sections:\n\
    1. Core Concept: A brief summary of the game's main idea\n\
    2. Gameplay Mechanics: Key gameplay systems and interactions\n\
    3. Story and Setting: The narrative context and world\n\
    4. Target Audience: Who the game is designed for\n\
    5. Unique Features: What makes this game stand out\n\
    6. Technical Considerations: Any important technical aspects\n\
    7. Development Milestones: Major phases of development\n\n\
    Provide detailed but concise information for each section.";

/// Why a tool call failed.
#[derive(Debug, PartialEq, Eq)]
pub enum ToolFailure {
    /// An argument is missing or is not a string.
    InvalidParameters(String),
    /// The call was understood and could not be carried out.
    ExecutionError(String),
    /// There is no tool of that name.
    NotFound(String),
}

/// The mathematical value of a [`ToolFailure`].
pub enum FailureView {
    InvalidParameters(Seq<char>),
    ExecutionError(Seq<char>),
    NotFound(Seq<char>),
}

impl View for ToolFailure {
    type V = FailureView;

    open spec fn view(&self) -> FailureView {
        match self {
            ToolFailure::InvalidParameters(text) => FailureView::InvalidParameters(text@),
            ToolFailure::ExecutionError(text) => FailureView::ExecutionError(text@),
            ToolFailure::NotFound(text) => FailureView::NotFound(text@),
        }
    }
}

impl ToolFailure {
    /// The message of the failure.
    pub fn message(&self) -> (text: String)
        ensures
            text@ == match self@ {
                FailureView::InvalidParameters(text) => text,
                FailureView::ExecutionError(text) => text,
                FailureView::NotFound(text) => text,
            },
    {
        match self {
            ToolFailure::InvalidParameters(text) => text.clone(),
            ToolFailure::ExecutionError(text) => text.clone(),
            ToolFailure::NotFound(text) => text.clone(),
        }
    }
}

/// A tool call with its arguments.
#[derive(Debug, PartialEq, Eq)]
pub enum ToolCall {
    /// Create a session from a description of the game.
    DesignNew { session_name: String, game_description: String },
    /// Show the design document of a session.
    DesignOverview { session_name: String },
    /// Give the specification of the next feature to implement.
    NextFeature { session_name: String },
    /// Submit a report of what was implemented.
    FeatureReview { session_name: String, changes_made: String },
    /// Reply to the questions of a review.
    ReviewReply { session_name: String, content: String },
}

/// The mathematical value of a [`ToolCall`].
pub enum CallView {
    DesignNew { session_name: Seq<char>, game_description: Seq<char> },
    DesignOverview { session_name: Seq<char> },
    NextFeature { session_name: Seq<char> },
    FeatureReview { session_name: Seq<char>, changes_made: Seq<char> },
    ReviewReply { session_name: Seq<char>, content: Seq<char> },
}

impl View for ToolCall {
    type V = CallView;

    open spec fn view(&self) -> CallView {
        match self {
            ToolCall::DesignNew { session_name, game_description } => CallView::DesignNew {
                session_name: session_name@,
                game_description: game_description@,
            },
            ToolCall::DesignOverview { session_name } => CallView::DesignOverview {
                session_name: session_name@,
            },
            ToolCall::NextFeature { session_name } => CallView::NextFeature {
                session_name: session_name@,
            },
            ToolCall::FeatureReview { session_name, changes_made } => CallView::FeatureReview {
                session_name: session_name@,
                changes_made: changes_made@,
            },
            ToolCall::ReviewReply { session_name, content } => CallView::ReviewReply {
                session_name: session_name@,
                content: content@,
            },
        }
    }
}

/// The value of a resolved call or of the failure in its place.
pub open spec fn call_view(result: Result<ToolCall, ToolFailure>) -> Result<CallView, FailureView> {
    match result {
        Ok(call) => Ok(call@),
        Err(failure) => Err(failure@),
    }
}

/// The value of a tool's answer or of the failure in its place.
pub open spec fn answer_view(result: Result<String, ToolFailure>) -> Result<
    Seq<char>,
    FailureView,
> {
    match result {
        Ok(text) => Ok(text@),
        Err(failure) => Err(failure@),
    }
}

/// The argument `key` of a call of `tool`: it must be there, as a string.
pub open spec fn required(members: Map<Seq<char>, Seq<char>>, key: Seq<char>, tool: Seq<char>)
    -> Result<Seq<char>, FailureView> {
    match member(members, key) {
        Some(text) => Ok(text),
        None => Err(FailureView::InvalidParameters(key + " is required for "@ + tool)),
    }
}

/// A call of `tool` that takes the session's name and nothing else.
pub open spec fn with_session(
    members: Map<Seq<char>, Seq<char>>,
    tool: Seq<char>,
    make: spec_fn(Seq<char>) -> CallView,
) -> Result<CallView, FailureView> {
    match required(members, ARG_SESSION_NAME@, tool) {
        Err(failure) => Err(failure),
        Ok(session_name) => Ok(make(session_name)),
    }
}

/// A call of `tool` that takes the session's name and the argument `key`;
/// the session's name is looked at first.
pub open spec fn with_session_and(
    members: Map<Seq<char>, Seq<char>>,
    tool: Seq<char>,
    key: Seq<char>,
    make: spec_fn(Seq<char>, Seq<char>) -> CallView,
) -> Result<CallView, FailureView> {
    match required(members, ARG_SESSION_NAME@, tool) {
        Err(failure) => Err(failure),
        Ok(session_name) => match required(members, key, tool) {
            Err(failure) => Err(failure),
            Ok(text) => Ok(make(session_name, text)),
        },
    }
}

/// The call that a tool name and the string members of its arguments stand
/// for.
pub open spec fn resolved(tool: Seq<char>, members: Map<Seq<char>, Seq<char>>) -> Result<
    CallView,
    FailureView,
> {
    if tool == TOOL_DESIGN_NEW@ {
        with_session_and(
            members,
            tool,
            ARG_GAME_DESCRIPTION@,
            |session_name: Seq<char>, game_description: Seq<char>|
                CallView::DesignNew { session_name, game_description },
        )
    } else if tool == TOOL_DESIGN_OVERVIEW@ {
        with_session(
            members,
            tool,
            |session_name: Seq<char>| CallView::DesignOverview { session_name },
        )
    } else if tool == TOOL_NEXT_FEATURE@ {
        with_session(
            members,
            tool,
            |session_name: Seq<char>| CallView::NextFeature { session_name },
        )
    } else if tool == TOOL_FEATURE_REVIEW@ {
        with_session_and(
            members,
            tool,
            ARG_CHANGES_MADE@,
            |session_name: Seq<char>, changes_made: Seq<char>|
                CallView::FeatureReview { session_name, changes_made },
        )
    } else if tool == TOOL_REVIEW_REPLY@ {
        with_session_and(
            members,
            tool,
            ARG_CONTENT@,
            |session_name: Seq<char>, content: Seq<char>|
                CallView::ReviewReply { session_name, content },
        )
    } else if tool == TOOL_FEATURE_ASK@ {
        Err(FailureView::ExecutionError("Tool '"@ + tool + "' is not yet implemented."@))
    } else {
        Err(FailureView::NotFound("Tool '"@ + tool + "' not found."@))
    }
}

/// The argument `key` of a call of `tool`.
fn required_argument(arguments: &serde_json::Value, key: &str, tool: &str) -> (argument: Result<
    String,
    ToolFailure,
>)
    ensures
        answer_view(argument) == required(json_text_members(*arguments), key@, tool@),
{
    match json_text_member(arguments, key) {
        Some(text) => Ok(text),
        None => Err(ToolFailure::InvalidParameters(join3(key, " is required for ", tool))),
    }
}

/// Reads a tool call: the tool must be known, and each of its arguments must
/// be there as a string.
pub fn resolve_tool_call(tool_name: &str, arguments: &serde_json::Value) -> (call: Result<
    ToolCall,
    ToolFailure,
>)
    ensures
        call_view(call) == resolved(tool_name@, json_text_members(*arguments)),
{
    if same_text(tool_name, TOOL_DESIGN_NEW) {
        let session_name = required_argument(arguments, ARG_SESSION_NAME, tool_name)?;
        let game_description = required_argument(arguments, ARG_GAME_DESCRIPTION, tool_name)?;
        Ok(ToolCall::DesignNew { session_name, game_description })
    } else if same_text(tool_name, TOOL_DESIGN_OVERVIEW) {
        let session_name = required_argument(arguments, ARG_SESSION_NAME, tool_name)?;
        Ok(ToolCall::DesignOverview { session_name })
    } else if same_text(tool_name, TOOL_NEXT_FEATURE) {
        let session_name = required_argument(arguments, ARG_SESSION_NAME, tool_name)?;
        Ok(ToolCall::NextFeature { session_name })
    } else if same_text(tool_name, TOOL_FEATURE_REVIEW) {
        let session_name = required_argument(arguments, ARG_SESSION_NAME, tool_name)?;
        let changes_made = required_argument(arguments, ARG_CHANGES_MADE, tool_name)?;
        Ok(ToolCall::FeatureReview { session_name, changes_made })
    } else if same_text(tool_name, TOOL_REVIEW_REPLY) {
        let session_name = required_argument(arguments, ARG_SESSION_NAME, tool_name)?;
        let content = required_argument(arguments, ARG_CONTENT, tool_name)?;
        Ok(ToolCall::ReviewReply { session_name, content })
    } else if same_text(tool_name, TOOL_FEATURE_ASK) {
        Err(ToolFailure::ExecutionError(join3("Tool '", tool_name, "' is not yet implemented.")))
    } else {
        Err(ToolFailure::NotFound(join3("Tool '", tool_name, "' not found.")))
    }
}

/// What was given on the command line for a trial of one tool.
#[derive(Debug, PartialEq, Eq, Default)]
pub struct ToolOptions {
    pub session_name: Option<String>,
    pub game_description: Option<String>,
    pub changes_made: Option<String>,
    pub content: Option<String>,
    pub question: Option<String>,
}

/// The mathematical value of [`ToolOptions`].
pub struct OptionsView {
    pub session_name: Option<Seq<char>>,
    pub game_description: Option<Seq<char>>,
    pub changes_made: Option<Seq<char>>,
    pub content: Option<Seq<char>>,
    pub question: Option<Seq<char>>,
}

impl View for ToolOptions {
    type V = OptionsView;

    open spec fn view(&self) -> OptionsView {
        OptionsView {
            session_name: text_view(self.session_name),
            game_description: text_view(self.game_description),
            changes_made: text_view(self.changes_made),
            content: text_view(self.content),
            question: text_view(self.question),
        }
    }
}

/// A copy of an optional string.
fn clone_option(text: &Option<String>) -> (copy: Option<String>)
    ensures
        text_view(copy) == text_view(*text),
{
    match text {
        Some(s) => Some(s.clone()),
        None => None,
    }
}

impl Clone for ToolOptions {
    fn clone(&self) -> (copy: Self)
        ensures
            copy@ == self@,
    {
        ToolOptions {
            session_name: clone_option(&self.session_name),
            game_description: clone_option(&self.game_description),
            changes_made: clone_option(&self.changes_made),
            content: clone_option(&self.content),
            question: clone_option(&self.question),
        }
    }
}

/// The arguments of a tool call, by name and in order.
pub type Arguments = Seq<(Seq<char>, Seq<char>)>;

/// The values of a list of arguments.
pub open spec fn arguments_view(arguments: Seq<(String, String)>) -> Arguments {
    Seq::new(arguments.len(), |i: int| (arguments[i].0@, arguments[i].1@))
}

/// The value of a list of arguments or of the complaint in its place.
pub open spec fn trial_view(result: Result<Vec<(String, String)>, String>) -> Result<
    Arguments,
    Seq<char>,
> {
    match result {
        Ok(arguments) => Ok(arguments_view(arguments@)),
        Err(complaint) => Err(complaint@),
    }
}

/// The complaint about an option that the trial of `tool` needs.
pub open spec fn option_missing(option: Seq<char>, tool: Seq<char>) -> Seq<char> {
    option + " is required for "@ + tool + " tool"@
}

/// The arguments of a trial that takes the session's name and one more
/// option; the session's name is looked at first.
pub open spec fn two_arguments(
    tool: Seq<char>,
    session_name: Option<Seq<char>>,
    option: Seq<char>,
    key: Seq<char>,
    value: Option<Seq<char>>,
) -> Result<Arguments, Seq<char>> {
    match session_name {
        None => Err(option_missing(OPTION_SESSION_NAME@, tool)),
        Some(session_name) => match value {
            None => Err(option_missing(option, tool)),
            Some(value) => Ok(seq![(ARG_SESSION_NAME@, session_name), (key, value)]),
        },
    }
}

/// The arguments with which a tool is tried from the command line: each tool
/// needs the session's name and, but for `designOverview` and `nextFeature`,
/// one option of its own. A tool that is not known is refused.
pub open spec fn trial_arguments(tool: Seq<char>, options: OptionsView) -> Result<
    Arguments,
    Seq<char>,
> {
    if tool == TOOL_DESIGN_NEW@ {
        two_arguments(
            tool,
            options.session_name,
            OPTION_GAME_DESCRIPTION@,
            ARG_GAME_DESCRIPTION@,
            options.game_description,
        )
    } else if tool == TOOL_DESIGN_OVERVIEW@ || tool == TOOL_NEXT_FEATURE@ {
        match options.session_name {
            None => Err(option_missing(OPTION_SESSION_NAME@, tool)),
            Some(session_name) => Ok(seq![(ARG_SESSION_NAME@, session_name)]),
        }
    } else if tool == TOOL_FEATURE_REVIEW@ {
        two_arguments(
            tool,
            options.session_name,
            OPTION_CHANGES_MADE@,
            ARG_CHANGES_MADE@,
            options.changes_made,
        )
    } else if tool == TOOL_REVIEW_REPLY@ {
        two_arguments(tool, options.session_name, OPTION_CONTENT@, ARG_CONTENT@, options.content)
    } else if tool == TOOL_FEATURE_ASK@ {
        two_arguments(
            tool,
            options.session_name,
            OPTION_QUESTION@,
            ARG_QUESTION@,
            options.question,
        )
    } else {
        Err("Unknown tool: "@ + tool)
    }
}

/// The arguments of a trial that takes the session's name and one more option.
fn pair_of_arguments(
    tool: &str,
    session_name: Option<String>,
    option: &str,
    key: &str,
    value: Option<String>,
) -> (arguments: Result<Vec<(String, String)>, String>)
    ensures
        trial_view(arguments) == two_arguments(
            tool@,
            text_view(session_name),
            option@,
            key@,
            text_view(value),
        ),
{
    match session_name {
        None => Err(missing_option(OPTION_SESSION_NAME, tool)),
        Some(session_name) => match value {
            None => Err(missing_option(option, tool)),
            Some(value) => {
                let mut arguments: Vec<(String, String)> = Vec::new();
                arguments.push((ARG_SESSION_NAME.to_owned(), session_name));
                arguments.push((key.to_owned(), value));
                assert(arguments_view(arguments@) =~= seq![
                    (ARG_SESSION_NAME@, session_name@),
                    (key@, value@),
                ]);
                Ok(arguments)
            },
        },
    }
}

/// The complaint about an option that the trial of `tool` needs.
fn missing_option(option: &str, tool: &str) -> (complaint: String)
    ensures
        complaint@ == option_missing(option@, tool@),
{
    let mut complaint = join3(option, " is required for ", tool);
    complaint.append(" tool");
    complaint
}

/// Makes the arguments with which `tool` is tried from the command line, or
/// says which option is missing.
pub fn tool_arguments(tool: &str, options: ToolOptions) -> (arguments: Result<
    Vec<(String, String)>,
    String,
>)
    ensures
        trial_view(arguments) == trial_arguments(tool@, options@),
{
    if same_text(tool, TOOL_DESIGN_NEW) {
        pair_of_arguments(
            tool,
            options.session_name,
            OPTION_GAME_DESCRIPTION,
            ARG_GAME_DESCRIPTION,
            options.game_description,
        )
    } else if same_text(tool, TOOL_DESIGN_OVERVIEW) || same_text(tool, TOOL_NEXT_FEATURE) {
        match options.session_name {
            None => Err(missing_option(OPTION_SESSION_NAME, tool)),
            Some(session_name) => {
                let mut arguments: Vec<(String, String)> = Vec::new();
                arguments.push((ARG_SESSION_NAME.to_owned(), session_name));
                assert(arguments_view(arguments@) =~= seq![(ARG_SESSION_NAME@, session_name@)]);
                Ok(arguments)
            },
        }
    } else if same_text(tool, TOOL_FEATURE_REVIEW) {
        pair_of_arguments(
            tool,
            options.session_name,
            OPTION_CHANGES_MADE,
            ARG_CHANGES_MADE,
            options.changes_made,
        )
    } else if same_text(tool, TOOL_REVIEW_REPLY) {
        pair_of_arguments(tool, options.session_name, OPTION_CONTENT, ARG_CONTENT, options.content)
    } else if same_text(tool, TOOL_FEATURE_ASK) {
        pair_of_arguments(
            tool,
            options.session_name,
            OPTION_QUESTION,
            ARG_QUESTION,
            options.question,
        )
    } else {
        Err(join2("Unknown tool: ", tool))
    }
}

/// The request for a design document that elaborates `game_description`.
pub open spec fn design_document_messages(game_description: Seq<char>) -> Seq<ChatMessageView> {
    seq![
        ChatMessageView { role: ROLE_SYSTEM@, content: DESIGN_BRIEF@ },
        ChatMessageView {
            role: ROLE_USER@,
            content: DESIGN_REQUEST_HEAD@ + game_description + DESIGN_REQUEST_TAIL@,
        },
    ]
}

/// Builds the messages that ask the model for a design document.
pub fn build_design_document_messages(game_description: &str) -> (messages: Vec<ChatMessage>)
    ensures
        messages_view(messages@) == design_document_messages(game_description@),
{
    let mut messages: Vec<ChatMessage> = Vec::new();
    messages.push(message(ROLE_SYSTEM, DESIGN_BRIEF.to_owned()));
    messages.push(
        message(ROLE_USER, join3(DESIGN_REQUEST_HEAD, game_description, DESIGN_REQUEST_TAIL)),
    );
    assert(messages_view(messages@) =~= design_document_messages(game_description@));
    messages
}

/// The description under which a session is created: the model's design
/// document where the model was asked and answered, else the description as
/// it was given.
pub open spec fn description_for(
    outcome: Option<Result<Seq<char>, Seq<char>>>,
    game_description: Seq<char>,
) -> Seq<char> {
    match outcome {
        Some(Ok(document)) => document,
        _ => game_description,
    }
}

/// Chooses the description under which a session is created; `outcome` is how
/// the call to the model ended, or nothing where no model is available.
pub fn comprehensive_description(
    outcome: Option<LlmOutcome>,
    game_description: &str,
) -> (description: String)
    ensures
        description@ == description_for(
            match outcome {
                Some(ended) => Some(outcome_view(ended)),
                None => None,
            },
            game_description@,
        ),
{
    match outcome {
        Some(Ok(document)) => document,
        _ => game_description.to_owned(),
    }
}

/// What `designNew` answers, given how creating the session ended.
pub open spec fn design_new_answer(session_name: Seq<char>, created: Result<(), ErrorView>)
    -> Result<Seq<char>, FailureView> {
    match created {
        Ok(()) => Ok(
            "Session '"@ + session_name
                + "' created successfully with comprehensive game design."@,
        ),
        Err(error) => Err(
            FailureView::ExecutionError("Failed to create session: "@ + error.message),
        ),
    }
}

/// Answers `designNew`.
pub fn design_new_result(session_name: &str, created: Result<(), DesignError>) -> (answer: Result<
    String,
    ToolFailure,
>)
    ensures
        answer_view(answer) == design_new_answer(
            session_name@,
            match created {
                Ok(()) => Ok(()),
                Err(error) => Err(error@),
            },
        ),
{
    match created {
        Ok(()) => Ok(
            join3(
                "Session '",
                session_name,
                "' created successfully with comprehensive game design.",
            ),
        ),
        Err(error) => Err(
            ToolFailure::ExecutionError(
                join2("Failed to create session: ", error.message.as_str()),
            ),
        ),
    }
}

/// What `designOverview` answers, given what loading the session gave: the
/// design document of the session.
pub open spec fn design_overview_answer(
    session_name: Seq<char>,
    loaded: Result<Option<SessionView>, ErrorView>,
) -> Result<Seq<char>, FailureView> {
    match loaded {
        Ok(Some(session)) => Ok(session.initial_description),
        Ok(None) => Err(
            FailureView::ExecutionError("Session '"@ + session_name + "' not found."@),
        ),
        Err(error) => Err(FailureView::ExecutionError("Failed to load session: "@ + error.message)),
    }
}

/// Answers `designOverview`.
pub fn design_overview_result(
    session_name: &str,
    loaded: Result<Option<SessionState>, DesignError>,
) -> (answer: Result<String, ToolFailure>)
    ensures
        answer_view(answer) == design_overview_answer(session_name@, loaded_view(loaded)),
{
    match loaded {
        Ok(Some(session)) => Ok(session.initial_description),
        Ok(None) => Err(
            ToolFailure::ExecutionError(join3("Session '", session_name, "' not found.")),
        ),
        Err(error) => Err(
            ToolFailure::ExecutionError(join2("Failed to load session: ", error.message.as_str())),
        ),
    }
}

/// What a tool of the workflow answers: the text that the operation returned,
/// or its error, word for word.
pub open spec fn workflow_answer(result: Result<Seq<char>, ErrorView>) -> Result<
    Seq<char>,
    FailureView,
> {
    match result {
        Ok(text) => Ok(text),
        Err(error) => Err(FailureView::ExecutionError(error.message)),
    }
}

/// Answers `nextFeature`, `featureReview` and `reviewReply`.
pub fn workflow_result(result: Result<String, DesignError>) -> (answer: Result<String, ToolFailure>)
    ensures
        answer_view(answer) == workflow_answer(text_result_view(result)),
{
    match result {
        Ok(text) => Ok(text),
        Err(error) => Err(ToolFailure::ExecutionError(error.message)),
    }
}

} // verus!
