//! What is exchanged with the designer model: messages out, choices back.

use crate::game_design::text::{join2, join3};
use vstd::prelude::*;

verus! {

/// The model that plans and reviews.
pub const CHIMERA_MODEL: &'static str = "tngtech/deepseek-r1t2-chimera:free";

/// Where chat completions are requested.
pub const COMPLETIONS_URL: &'static str = "https://openrouter.ai/api/v1/chat/completions";

/// The most tokens that an answer may have.
pub const MAX_TOKENS: u32 = 4000;

/// What the model's failure to answer with any choice is reported as.
pub const NO_CHOICES: &'static str = "LLM API returned no choices";

/// A chat message in the conversation with the designer model.
#[derive(Debug, PartialEq, Eq)]
pub struct ChatMessage {
    /// One of `"system"`, `"user"`, `"assistant"`.
    pub role: String,
    pub content: String,
}

/// The mathematical value of a [`ChatMessage`].
pub struct ChatMessageView {
    pub role: Seq<char>,
    pub content: Seq<char>,
}

impl View for ChatMessage {
    type V = ChatMessageView;

    open spec fn view(&self) -> ChatMessageView {
        ChatMessageView { role: self.role@, content: self.content@ }
    }
}

impl Clone for ChatMessage {
    fn clone(&self) -> (copy: Self)
        ensures
            copy@ == self@,
    {
        ChatMessage { role: self.role.clone(), content: self.content.clone() }
    }
}

/// The values of a list of messages, in order.
pub open spec fn messages_view(messages: Seq<ChatMessage>) -> Seq<ChatMessageView> {
    Seq::new(messages.len(), |i: int| messages[i]@)
}

/// A copy of `messages`.
pub fn clone_messages(messages: &Vec<ChatMessage>) -> (copy: Vec<ChatMessage>)
    ensures
        messages_view(copy@) == messages_view(messages@),
{
    let mut copy: Vec<ChatMessage> = Vec::new();
    let mut i: usize = 0;
    while i < messages.len()
        invariant
            i <= messages@.len(),
            copy@.len() == i,
            forall|j: int| 0 <= j < i ==> copy@[j]@ == messages@[j]@,
        decreases messages@.len() - i,
    {
        copy.push(messages[i].clone());
        i += 1;
    }
    assert(messages_view(copy@) =~= messages_view(messages@));
    copy
}

/// How a call to the designer model ended: with its answer, or with a failure
/// and what is known of it.
pub type LlmOutcome = Result<String, String>;

/// The value of an outcome.
pub open spec fn outcome_view(outcome: LlmOutcome) -> Result<Seq<char>, Seq<char>> {
    match outcome {
        Ok(answer) => Ok(answer@),
        Err(detail) => Err(detail@),
    }
}

/// The value of the `Authorization` header for `api_key`.
pub fn bearer(api_key: &str) -> (header: String)
    ensures
        header@ == "Bearer "@ + api_key@,
{
    join2("Bearer ", api_key)
}

/// What a response with a status other than success is reported as: the
/// status and the body of the response.
pub open spec fn failure_text(status: Seq<char>, body: Seq<char>) -> Seq<char> {
    "LLM API request failed with status "@ + status + ": "@ + body
}

/// The outcome of a call that was answered with a status other than success.
pub fn request_failed(status: &str, body: &str) -> (outcome: LlmOutcome)
    ensures
        outcome_view(outcome) == Err::<Seq<char>, Seq<char>>(failure_text(status@, body@)),
{
    let mut text = join3("LLM API request failed with status ", status, ": ");
    text.append(body);
    Err(text)
}

/// The answer that a list of choices stands for: the content of the first
/// choice; a list without any choice is a failure.
pub open spec fn first_choice_of(choices: Seq<ChatMessageView>) -> Result<Seq<char>, Seq<char>> {
    if choices.len() > 0 {
        Ok(choices[0].content)
    } else {
        Err(NO_CHOICES@)
    }
}

/// The outcome of a call that was answered with `choices`.
pub fn first_choice(choices: &Vec<ChatMessage>) -> (outcome: LlmOutcome)
    ensures
        outcome_view(outcome) == first_choice_of(messages_view(choices@)),
{
    if choices.len() > 0 {
        Ok(choices[0].content.clone())
    } else {
        Err(NO_CHOICES.to_owned())
    }
}

} // verus!
