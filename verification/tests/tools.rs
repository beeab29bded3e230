use game_designer::game_design::designer_llm::ChatMessage;
use game_designer::game_design::error::DesignError;
use game_designer::game_design::state::SessionState;
use game_designer::tools::docs::summarizer::AiSummarizer;
use game_designer::tools::game_tools::{
    build_design_document_messages, comprehensive_description, design_new_result,
    design_overview_result, resolve_tool_call, tool_arguments, workflow_result, ToolCall,
    ToolFailure, ToolOptions,
};
use game_designer::transport::jsonrpc_frame_codec::JsonRpcFrameCodec;

fn arguments(text: &str) -> serde_json::Value {
    serde_json::from_str(text).unwrap()
}

#[test]
fn design_new_needs_name_and_description() {
    let call = resolve_tool_call(
        "designNew",
        &arguments(r#"{"sessionName":"s1","gameDescription":"cats in space"}"#),
    );
    assert_eq!(
        call,
        Ok(ToolCall::DesignNew {
            session_name: "s1".to_string(),
            game_description: "cats in space".to_string(),
        })
    );
    let call = resolve_tool_call("designNew", &arguments(r#"{"gameDescription":"cats"}"#));
    assert_eq!(
        call,
        Err(ToolFailure::InvalidParameters(
            "sessionName is required for designNew".to_string()
        ))
    );
    let call = resolve_tool_call("designNew", &arguments(r#"{"sessionName":"s1"}"#));
    assert_eq!(
        call,
        Err(ToolFailure::InvalidParameters(
            "gameDescription is required for designNew".to_string()
        ))
    );
    // The session's name is looked at first.
    let call = resolve_tool_call("designNew", &arguments("{}"));
    assert_eq!(
        call,
        Err(ToolFailure::InvalidParameters(
            "sessionName is required for designNew".to_string()
        ))
    );
}

#[test]
fn arguments_must_be_strings() {
    for text in [
        r#"{"sessionName":7}"#,
        r#"{"sessionName":null}"#,
        r#"{"sessionName":["s1"]}"#,
        r#"["sessionName","s1"]"#,
        r#""sessionName""#,
        "null",
    ] {
        assert_eq!(
            resolve_tool_call("designOverview", &arguments(text)),
            Err(ToolFailure::InvalidParameters(
                "sessionName is required for designOverview".to_string()
            ))
        );
    }
}

#[test]
fn every_tool_of_the_workflow_resolves() {
    let full = arguments(
        r#"{"sessionName":"s1","changesMade":"done","content":"tests added","question":"why"}"#,
    );
    assert_eq!(
        resolve_tool_call("designOverview", &full),
        Ok(ToolCall::DesignOverview {
            session_name: "s1".to_string()
        })
    );
    assert_eq!(
        resolve_tool_call("nextFeature", &full),
        Ok(ToolCall::NextFeature {
            session_name: "s1".to_string()
        })
    );
    assert_eq!(
        resolve_tool_call("featureReview", &full),
        Ok(ToolCall::FeatureReview {
            session_name: "s1".to_string(),
            changes_made: "done".to_string(),
        })
    );
    assert_eq!(
        resolve_tool_call("reviewReply", &full),
        Ok(ToolCall::ReviewReply {
            session_name: "s1".to_string(),
            content: "tests added".to_string(),
        })
    );
    let bare = arguments(r#"{"sessionName":"s1"}"#);
    assert_eq!(
        resolve_tool_call("featureReview", &bare),
        Err(ToolFailure::InvalidParameters(
            "changesMade is required for featureReview".to_string()
        ))
    );
    assert_eq!(
        resolve_tool_call("reviewReply", &bare),
        Err(ToolFailure::InvalidParameters(
            "content is required for reviewReply".to_string()
        ))
    );
    assert_eq!(
        resolve_tool_call("nextFeature", &arguments("{}")),
        Err(ToolFailure::InvalidParameters(
            "sessionName is required for nextFeature".to_string()
        ))
    );
}

#[test]
fn unknown_tools_are_not_found() {
    let full = arguments(r#"{"sessionName":"s1","question":"why"}"#);
    assert_eq!(
        resolve_tool_call("featureAsk", &full),
        Err(ToolFailure::ExecutionError(
            "Tool 'featureAsk' is not yet implemented.".to_string()
        ))
    );
    for name in ["", "designnew", "DesignNew", "designNew ", "lookup_crate"] {
        let failure = resolve_tool_call(name, &full).unwrap_err();
        assert_eq!(
            failure,
            ToolFailure::NotFound(format!("Tool '{}' not found.", name))
        );
        assert_eq!(failure.message(), format!("Tool '{}' not found.", name));
    }
}

#[test]
fn design_document_is_requested_for_the_description() {
    let messages = build_design_document_messages("cats in space");
    assert_eq!(
        messages,
        vec![
            ChatMessage {
                role: "system".to_string(),
                content: "You are an expert game designer. Your task is to create detailed and comprehensive game design documents based on brief descriptions.".to_string(),
            },
            ChatMessage {
                role: "user".to_string(),
                content: "Create a comprehensive game design document for a game with this description: 'cats in space'.\nInclude the following sections:\n1. Core Concept: A brief summary of the game's main idea\n2. Gameplay Mechanics: Key gameplay systems and interactions\n3. Story and Setting: The narrative context and world\n4. Target Audience: Who the game is designed for\n5. Unique Features: What makes this game stand out\n6. Technical Considerations: Any important technical aspects\n7. Development Milestones: Major phases of development\n\nProvide detailed but concise information for each section.".to_string(),
            },
        ]
    );
}

#[test]
fn description_falls_back_to_what_was_given() {
    assert_eq!(
        comprehensive_description(Some(Ok("A long document".to_string())), "cats"),
        "A long document"
    );
    assert_eq!(
        comprehensive_description(Some(Err("timeout".to_string())), "cats"),
        "cats"
    );
    assert_eq!(comprehensive_description(None, "cats"), "cats");
}

#[test]
fn tool_answers_wrap_the_outcome() {
    assert_eq!(
        design_new_result("s1", Ok(())),
        Ok("Session 's1' created successfully with comprehensive game design.".to_string())
    );
    assert_eq!(
        design_new_result("s1", Err(DesignError::session_exists("s1"))),
        Err(ToolFailure::ExecutionError(
            "Failed to create session: Session 's1' already exists".to_string()
        ))
    );
    let session = SessionState::new("s1".to_string(), "D".to_string());
    assert_eq!(
        design_overview_result("s1", Ok(Some(session))),
        Ok("D".to_string())
    );
    assert_eq!(
        design_overview_result("s1", Ok(None)),
        Err(ToolFailure::ExecutionError(
            "Session 's1' not found.".to_string()
        ))
    );
    assert_eq!(
        design_overview_result("s1", Err(DesignError::persistence("disk full".to_string()))),
        Err(ToolFailure::ExecutionError(
            "Failed to load session: disk full".to_string()
        ))
    );
    assert_eq!(
        workflow_result(Ok("Implement jump".to_string())),
        Ok("Implement jump".to_string())
    );
    assert_eq!(
        workflow_result(Err(DesignError::no_active_feature())),
        Err(ToolFailure::ExecutionError(
            "No next feature to implement".to_string()
        ))
    );
}

#[test]
fn frames_end_at_the_first_newline() {
    let mut codec = JsonRpcFrameCodec::default();
    let mut buffer = b"{\"id\":1}\n{\"id\":2}\n{\"id\"".to_vec();
    assert_eq!(codec.decode(&mut buffer), Some(b"{\"id\":1}".to_vec()));
    assert_eq!(buffer, b"{\"id\":2}\n{\"id\"".to_vec());
    assert_eq!(codec.decode(&mut buffer), Some(b"{\"id\":2}".to_vec()));
    assert_eq!(buffer, b"{\"id\"".to_vec());
    assert_eq!(codec.decode(&mut buffer), None);
    assert_eq!(buffer, b"{\"id\"".to_vec());
}

#[test]
fn empty_frames_and_empty_buffers() {
    let mut codec = JsonRpcFrameCodec;
    let mut buffer: Vec<u8> = Vec::new();
    assert_eq!(codec.decode(&mut buffer), None);
    assert!(buffer.is_empty());
    let mut buffer = b"\n\nx".to_vec();
    assert_eq!(codec.decode(&mut buffer), Some(Vec::new()));
    assert_eq!(buffer, b"\nx".to_vec());
    assert_eq!(codec.decode(&mut buffer), Some(Vec::new()));
    assert_eq!(buffer, b"x".to_vec());
    assert_eq!(codec.decode(&mut buffer), None);
    let mut buffer = b"a\r\n".to_vec();
    assert_eq!(codec.decode(&mut buffer), Some(b"a\r".to_vec()));
    assert!(buffer.is_empty());
}

#[test]
fn summary_request_names_the_crate() {
    let summarizer = AiSummarizer::new("key".to_string());
    assert_eq!(summarizer.api_key, "key");
    let request = summarizer.summarize_docs_with_ai("bevy", "DOCS");
    assert_eq!(request.authorization, "Bearer key");
    assert_eq!(request.messages.len(), 2);
    assert_eq!(request.messages[0].role, "system");
    assert!(request.messages[0].content.starts_with(
        "You are an expert technical writer for Rust documentation. Your task is to create a detailed yet structured overview of the provided crate documentation.\n\nPlease organize your summary into the following sections. You MUST use markdown formatting for readability:\n\n1.  **Overview:** A 1-2 sentence description of the crate's purpose.\n2.  **Key Features:**"
    ));
    assert!(request.messages[0].content.ends_with(
        "configuration needs.\n\nBe comprehensive but avoid simply listing everything. Curate the information for maximum usefulness to a Rust developer."
    ));
    assert_eq!(
        request.messages[1],
        ChatMessage {
            role: "user".to_string(),
            content: "Please analyze the following Rust crate documentation for the crate `bevy` and provide a structured overview as requested:\n\nDOCS".to_string(),
        }
    );
}

#[test]
fn summary_is_the_trimmed_first_choice() {
    let choices = vec![
        ChatMessage {
            role: "assistant".to_string(),
            content: "\n  # Overview\nbevy is an engine. \n".to_string(),
        },
        ChatMessage {
            role: "assistant".to_string(),
            content: "second".to_string(),
        },
    ];
    let summary = AiSummarizer::summary_from_choices(&choices).unwrap();
    assert!(!summary.is_empty());
    assert_eq!(summary, "# Overview\nbevy is an engine.");
    assert_eq!(
        AiSummarizer::summary_from_choices(&Vec::new()),
        Err(ToolFailure::ExecutionError(
            "No choices returned from OpenRouter API".to_string()
        ))
    );
    assert_eq!(
        AiSummarizer::summary_from_first(Some("s".to_string())),
        Ok("s".to_string())
    );
    assert_eq!(
        AiSummarizer::summary_from_first(None),
        Err(ToolFailure::ExecutionError(
            "No choices returned from OpenRouter API".to_string()
        ))
    );
}

fn pair(name: &str, value: &str) -> (String, String) {
    (name.to_string(), value.to_string())
}

fn all_options() -> ToolOptions {
    ToolOptions {
        session_name: Some("my_game".to_string()),
        game_description: Some("cats in space".to_string()),
        changes_made: Some("moved".to_string()),
        content: Some("yes".to_string()),
        question: Some("how".to_string()),
    }
}

#[test]
fn trial_takes_the_options_of_its_tool() {
    assert_eq!(
        tool_arguments("designNew", all_options()),
        Ok(vec![
            pair("sessionName", "my_game"),
            pair("gameDescription", "cats in space")
        ])
    );
    assert_eq!(
        tool_arguments("designOverview", all_options()),
        Ok(vec![pair("sessionName", "my_game")])
    );
    assert_eq!(
        tool_arguments("nextFeature", all_options()),
        Ok(vec![pair("sessionName", "my_game")])
    );
    assert_eq!(
        tool_arguments("featureReview", all_options()),
        Ok(vec![
            pair("sessionName", "my_game"),
            pair("changesMade", "moved")
        ])
    );
    assert_eq!(
        tool_arguments("reviewReply", all_options()),
        Ok(vec![pair("sessionName", "my_game"), pair("content", "yes")])
    );
    assert_eq!(
        tool_arguments("featureAsk", all_options()),
        Ok(vec![pair("sessionName", "my_game"), pair("question", "how")])
    );
}

#[test]
fn trial_names_the_missing_option() {
    let nothing = ToolOptions::default();
    for tool in [
        "designNew",
        "designOverview",
        "nextFeature",
        "featureReview",
        "reviewReply",
        "featureAsk",
    ] {
        assert_eq!(
            tool_arguments(tool, nothing.clone()),
            Err(format!("--session-name is required for {} tool", tool))
        );
    }
    let named = ToolOptions {
        session_name: Some("my_game".to_string()),
        ..ToolOptions::default()
    };
    assert_eq!(
        tool_arguments("designNew", named.clone()),
        Err("--game-description is required for designNew tool".to_string())
    );
    assert_eq!(
        tool_arguments("featureReview", named.clone()),
        Err("--changes-made is required for featureReview tool".to_string())
    );
    assert_eq!(
        tool_arguments("reviewReply", named.clone()),
        Err("--content is required for reviewReply tool".to_string())
    );
    assert_eq!(
        tool_arguments("featureAsk", named.clone()),
        Err("--question is required for featureAsk tool".to_string())
    );
    assert_eq!(
        tool_arguments("lookup", all_options()),
        Err("Unknown tool: lookup".to_string())
    );
    assert_eq!(
        tool_arguments("", named),
        Err("Unknown tool: ".to_string())
    );
}

#[test]
fn summarize() {
    let summarizer = AiSummarizer::new("key".to_string());
    let request = summarizer.summarize_docs_with_ai("bevy", "Crate bevy: a data-driven engine.");
    assert!(request.messages[1].content.contains("`bevy`"));
    let choices = vec![ChatMessage {
        role: "assistant".to_string(),
        content: " **Overview:** bevy is a data-driven game engine.\n".to_string(),
    }];
    let summary = AiSummarizer::summary_from_choices(&choices).unwrap();

    assert!(!summary.is_empty());

    println!("{summary}");
}

#[test]
fn frame_ends_at_the_first_newline() {
    assert_eq!(JsonRpcFrameCodec::frame_end(b"{\"id\":1}\n{\"id\":2}\n"), Some(8));
    assert_eq!(JsonRpcFrameCodec::frame_end(b"\n"), Some(0));
    assert_eq!(JsonRpcFrameCodec::frame_end(b"a\r\n\n"), Some(2));
    assert_eq!(JsonRpcFrameCodec::frame_end(b"{\"id\""), None);
    assert_eq!(JsonRpcFrameCodec::frame_end(b""), None);
}
