//! Summaries of crate documentation, written by a language model.

use crate::game_design::designer_llm::{
    bearer, messages_view, ChatMessage, ChatMessageView, CHIMERA_MODEL,
};
use crate::game_design::prompt::{message, ROLE_SYSTEM, ROLE_USER};
use crate::game_design::text::{join2, trimmed};
use crate::tools::game_tools::{FailureView, ToolFailure};
use vstd::prelude::*;

verus! {

/// The model that writes the summaries.
pub const SUMMARY_MODEL: &'static str = CHIMERA_MODEL;

/// The most tokens that a summary may have.
pub const SUMMARY_MAX_TOKENS: u32 = 10_000;

/// What the model is told to be when it summarizes documentation.
pub const SUMMARY_BRIEF: &'static str = "You are an expert technical writer for Rust documentation. Your task is to create a detailed yet structured overview of the provided crate documentation.\n\
    \n\
    Please organize your summary into the following sections. You MUST use markdown formatting for readability:\n\
    \n\
    1.  **Overview:** A 1-2 sentence description of the crate's purpose.\n\
    2.  **Key Features:** A bulleted list of its main features and capabilities.\n\
    3.  **Core API:** Describe the most important structs, enums, traits, and functions. Focus on what a user would need to know to get started.\n\
    4.  **Usage Example:** Provide a simple, practical code example showing how to use the crate in a common scenario.\n\
    5.  **Notable Considerations:** Mention any important details like safety warnings, async support, common dependencies, or configuration needs.\n\
    \n\
    Be comprehensive but avoid simply listing everything. Curate the information for maximum usefulness to a Rust developer.";

/// How the request for a summary begins, before the crate's name.
pub const SUMMARY_REQUEST_HEAD: &'static str = "Please analyze the following Rust crate documentation for the crate `";

/// What stands between the crate's name and its documentation.
pub const SUMMARY_REQUEST_MIDDLE: &'static str = "` and provide a structured overview as requested:\n\n";

/// What the model's failure to answer with any choice is reported as.
pub const SUMMARY_NO_CHOICES: &'static str = "No choices returned from OpenRouter API";

/// Summarizes crate documentation with the help of a language model.
#[derive(Debug)]
pub struct AiSummarizer {
    pub api_key: String,
}

impl Clone for AiSummarizer {
    fn clone(&self) -> (copy: Self)
        ensures
            copy.api_key@ == self.api_key@,
    {
        AiSummarizer { api_key: self.api_key.clone() }
    }
}

/// What is sent to the model for one summary.
#[derive(Debug)]
pub struct SummaryRequest {
    /// The value of the `Authorization` header.
    pub authorization: String,
    /// The messages of the chat.
    pub messages: Vec<ChatMessage>,
}

/// The messages that ask for a summary of `text`, the documentation of the
/// crate `crate_name`.
pub open spec fn summary_messages(crate_name: Seq<char>, text: Seq<char>) -> Seq<ChatMessageView> {
    seq![
        ChatMessageView { role: ROLE_SYSTEM@, content: SUMMARY_BRIEF@ },
        ChatMessageView {
            role: ROLE_USER@,
            content: SUMMARY_REQUEST_HEAD@ + crate_name + SUMMARY_REQUEST_MIDDLE@ + text,
        },
    ]
}

/// The summary that a list of choices stands for: the content of the first
/// choice, trimmed; a list without any choice is a failure.
pub open spec fn summary_of(choices: Seq<ChatMessageView>) -> Result<Seq<char>, FailureView> {
    if choices.len() > 0 {
        Ok(trimmed(choices[0].content))
    } else {
        Err(FailureView::ExecutionError(SUMMARY_NO_CHOICES@))
    }
}

/// The summary that a trimmed first choice stands for.
pub open spec fn summary_from(first: Option<Seq<char>>) -> Result<Seq<char>, FailureView> {
    match first {
        Some(text) => Ok(text),
        None => Err(FailureView::ExecutionError(SUMMARY_NO_CHOICES@)),
    }
}

impl AiSummarizer {
    /// A summarizer that authorizes itself with `api_key`.
    pub fn new(api_key: String) -> (summarizer: Self)
        ensures
            summarizer.api_key@ == api_key@,
    {
        AiSummarizer { api_key }
    }

    /// First step of a summary: what to send to the model to have `text`, the
    /// documentation of the crate `crate_name`, summarized.
    pub fn summarize_docs_with_ai(&self, crate_name: &str, text: &str) -> (request: SummaryRequest)
        ensures
            request.authorization@ == "Bearer "@ + self.api_key@,
            messages_view(request.messages@) == summary_messages(crate_name@, text@),
    {
        let mut content = join2(SUMMARY_REQUEST_HEAD, crate_name);
        content.append(SUMMARY_REQUEST_MIDDLE);
        content.append(text);
        let mut messages: Vec<ChatMessage> = Vec::new();
        messages.push(message(ROLE_SYSTEM, SUMMARY_BRIEF.to_owned()));
        messages.push(message(ROLE_USER, content));
        assert(messages_view(messages@) =~= summary_messages(crate_name@, text@));
        SummaryRequest { authorization: bearer(self.api_key.as_str()), messages }
    }

    /// The summary for a first choice that was trimmed already, or for none.
    pub fn summary_from_first(first: Option<String>) -> (summary: Result<String, ToolFailure>)
        ensures
            match summary {
                Ok(text) => summary_from(
                    match first {
                        Some(s) => Some(s@),
                        None => None,
                    },
                ) == Ok::<Seq<char>, FailureView>(text@),
                Err(failure) => summary_from(
                    match first {
                        Some(s) => Some(s@),
                        None => None,
                    },
                ) == Err::<Seq<char>, FailureView>(failure@),
            },
    {
        match first {
            Some(text) => Ok(text),
            None => Err(ToolFailure::ExecutionError(SUMMARY_NO_CHOICES.to_owned())),
        }
    }

    /// Second step of a summary: the summary that the model's choices stand
    /// for.
    pub fn summary_from_choices(choices: &Vec<ChatMessage>) -> (summary: Result<
        String,
        ToolFailure,
    >)
        ensures
            match summary {
                Ok(text) => summary_of(messages_view(choices@)) == Ok::<Seq<char>, FailureView>(
                    text@,
                ),
                Err(failure) => summary_of(messages_view(choices@)) == Err::<
                    Seq<char>,
                    FailureView,
                >(failure@),
            },
    {
        if choices.len() > 0 {
            Self::summary_from_first(Some(choices[0].content.as_str().trim().to_owned()))
        } else {
            Self::summary_from_first(None)
        }
    }
}

} // verus!
