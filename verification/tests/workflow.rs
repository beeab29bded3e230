use game_designer::game_design::designer_llm::ChatMessage;
use game_designer::game_design::error::ErrorKind;
use game_designer::game_design::session::SessionManager;
use game_designer::game_design::state::{Feature, FeatureStatus, SessionState};
use game_designer::game_design::workflow::NextFeatureStep;

const JUMP: &str = r#"{"name":"Jump","description":"Implement jump"}"#;

fn jump() -> Feature {
    Feature {
        name: "Jump".to_string(),
        description: "Implement jump".to_string(),
        status: FeatureStatus::Planned,
    }
}

fn store_with_s1() -> SessionManager {
    let mut store = SessionManager::new();
    let session = store
        .create_session("s1".to_string(), "D".to_string(), false)
        .unwrap();
    store.save_session(session, Ok(())).unwrap();
    store
}

fn resident(store: &mut SessionManager, id: &str) -> SessionState {
    store.load_session(id, Ok(None)).unwrap().unwrap()
}

/// The store after the model proposed the feature `Jump` for session `s1`.
fn store_after_proposal() -> SessionManager {
    let mut store = store_with_s1();
    let (session, _) = store
        .record_next_feature("s1", Ok(JUMP.to_string()))
        .unwrap();
    store.save_session(session, Ok(())).unwrap();
    store
}

/// The store after the report `partial` met with feedback.
fn store_after_feedback() -> SessionManager {
    let mut store = store_after_proposal();
    let (session, _) = store
        .record_feature_review("s1", "partial", Ok("Please add tests".to_string()))
        .unwrap();
    store.save_session(session, Ok(())).unwrap();
    store
}

/// The store after the report `done` was accepted.
fn store_after_acceptance() -> SessionManager {
    let mut store = store_after_proposal();
    let (session, _) = store
        .record_feature_review("s1", "done", Ok("SATISFIED".to_string()))
        .unwrap();
    store.save_session(session, Ok(())).unwrap();
    store
}

#[test]
fn new_session_is_empty() {
    let session = SessionState::new("s1".to_string(), "D".to_string());
    assert_eq!(session.id, "s1");
    assert_eq!(session.initial_description, "D");
    assert!(session.llm_chat_history.is_empty());
    assert!(session.planned_features.is_empty());
    assert!(session.implemented_features_reports.is_empty());
    assert_eq!(session.implemented_features_reports.len(), 0);
    assert_eq!(session.next_feature_to_implement, None);
}

#[test]
fn next_feature_asks_the_model_first() {
    let store = store_with_s1();
    let step = store.get_next_feature("s1", true).unwrap();
    match step {
        NextFeatureStep::AskModel(messages) => {
            assert_eq!(messages.len(), 2);
            assert_eq!(messages[0].role, "system");
            assert_eq!(messages[1].role, "user");
            assert!(messages[1]
                .content
                .starts_with("Based on this game design document:\nD\n\nPlease provide"));
        }
        NextFeatureStep::Cached(_) => panic!("nothing is checked out yet"),
    }
}

#[test]
fn proposal_is_planned_and_checked_out() {
    let mut store = store_with_s1();
    let (session, text) = store
        .record_next_feature("s1", Ok(JUMP.to_string()))
        .unwrap();
    assert_eq!(text, "Implement jump");
    assert_eq!(session.planned_features, vec![jump()]);
    assert_eq!(session.next_feature_to_implement, Some("Jump".to_string()));
    // Nothing is resident before the changed session is saved.
    assert!(resident(&mut store, "s1").planned_features.is_empty());
    store.save_session(session, Ok(())).unwrap();
    let persisted = resident(&mut store, "s1");
    assert_eq!(persisted.planned_features, vec![jump()]);
    assert_eq!(persisted.next_feature_to_implement, Some("Jump".to_string()));
    assert_eq!(persisted.id, "s1");
    assert_eq!(persisted.initial_description, "D");
}

#[test]
fn checked_out_feature_is_returned_without_the_model() {
    let store = store_after_proposal();
    let first = store.get_next_feature("s1", false).unwrap();
    let second = store.get_next_feature("s1", false).unwrap();
    let third = store.get_next_feature("s1", true).unwrap();
    assert_eq!(first, NextFeatureStep::Cached("Implement jump".to_string()));
    assert_eq!(second, first);
    assert_eq!(third, first);
}

#[test]
fn accepted_report_closes_the_feature() {
    let mut store = store_after_proposal();
    let request = store.submit_feature_review("s1", "done", true).unwrap();
    assert_eq!(request.len(), 2);
    let (session, answer) = store
        .record_feature_review("s1", "done", Ok("SATISFIED".to_string()))
        .unwrap();
    assert_eq!(answer, "SATISFIED");
    store.save_session(session, Ok(())).unwrap();
    let persisted = resident(&mut store, "s1");
    assert_eq!(persisted.planned_features.len(), 1);
    assert_eq!(persisted.planned_features[0].status, FeatureStatus::Reviewed);
    assert_eq!(persisted.planned_features[0].name, "Jump");
    assert_eq!(persisted.next_feature_to_implement, None);
    assert_eq!(
        persisted
            .implemented_features_reports
            .get(&"Jump".to_string()),
        Some(&"done".to_string())
    );
}

#[test]
fn feedback_keeps_the_feature_checked_out() {
    let mut store = store_after_proposal();
    let (session, answer) = store
        .record_feature_review("s1", "partial", Ok("Please add tests".to_string()))
        .unwrap();
    assert_eq!(answer, "Please add tests");
    store.save_session(session, Ok(())).unwrap();
    let persisted = resident(&mut store, "s1");
    assert_eq!(
        persisted.planned_features[0].status,
        FeatureStatus::NeedsRework
    );
    assert_eq!(persisted.next_feature_to_implement, Some("Jump".to_string()));
    assert_eq!(
        persisted
            .implemented_features_reports
            .get(&"Jump".to_string()),
        Some(&"partial".to_string())
    );
}

#[test]
fn accepted_reply_closes_the_feature() {
    let mut store = store_after_feedback();
    let request = store.submit_review_reply("s1", "tests added", true).unwrap();
    assert_eq!(request.len(), 2);
    assert!(request[1]
        .content
        .contains("Previous implementation report from developer:\npartial\n\n"));
    assert!(request[1]
        .content
        .contains("Developer's reply to review questions:\ntests added\n\n"));
    let (session, answer) = store
        .record_review_reply("s1", Ok("SATISFIED".to_string()))
        .unwrap();
    assert_eq!(answer, "SATISFIED");
    store.save_session(session, Ok(())).unwrap();
    let persisted = resident(&mut store, "s1");
    assert_eq!(persisted.planned_features[0].status, FeatureStatus::Reviewed);
    assert_eq!(persisted.next_feature_to_implement, None);
    // The reply does not take the report's place.
    assert_eq!(
        persisted
            .implemented_features_reports
            .get(&"Jump".to_string()),
        Some(&"partial".to_string())
    );
}

#[test]
fn rejected_reply_changes_nothing() {
    let mut store = store_after_feedback();
    let before = resident(&mut store, "s1");
    let (session, answer) = store
        .record_review_reply("s1", Ok("Still no tests for the double jump".to_string()))
        .unwrap();
    assert_eq!(answer, "Still no tests for the double jump");
    assert_eq!(session, before);
    assert_eq!(session.planned_features[0].status, FeatureStatus::NeedsRework);
    assert_eq!(session.next_feature_to_implement, Some("Jump".to_string()));
}

#[test]
fn reply_after_acceptance_is_an_invalid_transition() {
    let mut store = store_after_acceptance();
    let before = resident(&mut store, "s1");
    let request = store.submit_review_reply("s1", "tests added", true).unwrap_err();
    assert_eq!(request.kind, ErrorKind::InvalidStateTransition);
    assert_eq!(request.message(), "No next feature to implement");
    let recorded = store
        .record_review_reply("s1", Ok("SATISFIED".to_string()))
        .unwrap_err();
    assert_eq!(recorded.kind, ErrorKind::InvalidStateTransition);
    assert_eq!(resident(&mut store, "s1"), before);
}

#[test]
fn reply_to_a_planned_feature_is_an_invalid_transition() {
    let store = store_after_proposal();
    let request = store.submit_review_reply("s1", "tests added", true).unwrap_err();
    assert_eq!(request.kind, ErrorKind::InvalidStateTransition);
    assert_eq!(request.message(), "Feature 'Jump' is not in NeedsRework status");
    let recorded = store
        .record_review_reply("s1", Ok("SATISFIED".to_string()))
        .unwrap_err();
    assert_eq!(recorded.kind, ErrorKind::InvalidStateTransition);
    assert_eq!(recorded.message(), "Feature 'Jump' is not in NeedsRework status");
}

#[test]
fn reply_without_a_report_is_refused() {
    let mut session = SessionState::new("s1".to_string(), "D".to_string());
    session.planned_features.push(Feature {
        status: FeatureStatus::NeedsRework,
        ..jump()
    });
    session.next_feature_to_implement = Some("Jump".to_string());
    for llm_available in [false, true] {
        let error = session
            .request_review_reply("tests added", llm_available)
            .unwrap_err();
        assert_eq!(error.kind, ErrorKind::InvalidStateTransition);
        assert_eq!(
            error.message(),
            "No implementation report found for feature 'Jump'"
        );
    }
}

#[test]
fn next_feature_without_model_is_unavailable() {
    let store = store_with_s1();
    let error = store.get_next_feature("s1", false).unwrap_err();
    assert_eq!(error.kind, ErrorKind::LlmUnavailable);
    assert_eq!(
        error.message(),
        "LLM client not available to generate next feature"
    );
}

#[test]
fn review_without_model_is_unavailable() {
    let store = store_after_proposal();
    let error = store.submit_feature_review("s1", "done", false).unwrap_err();
    assert_eq!(error.kind, ErrorKind::LlmUnavailable);
    assert_eq!(
        error.message(),
        "LLM client not available to perform feature review"
    );
    // The reply is about a feature that is only planned: that is what is
    // wrong with it, with or without a model.
    let error = store.submit_review_reply("s1", "x", false).unwrap_err();
    assert_eq!(error.kind, ErrorKind::InvalidStateTransition);
    assert_eq!(
        error.message(),
        "Feature 'Jump' is not in NeedsRework status"
    );
}

#[test]
fn reply_without_model_is_unavailable() {
    let store = store_after_feedback();
    let error = store.submit_review_reply("s1", "tests added", false).unwrap_err();
    assert_eq!(error.kind, ErrorKind::LlmUnavailable);
    assert_eq!(
        error.message(),
        "LLM client not available to process review reply"
    );
}

#[test]
fn state_is_looked_at_before_the_model() {
    // Nothing is checked out: a report and a reply are invalid transitions,
    // whether or not a model is configured.
    let mut fresh = store_with_s1();
    let mut accepted = store_after_acceptance();
    for store in [&mut fresh, &mut accepted] {
        let before = resident(store, "s1");
        for llm_available in [false, true] {
            let error = store
                .submit_feature_review("s1", "done", llm_available)
                .unwrap_err();
            assert_eq!(error.kind, ErrorKind::InvalidStateTransition);
            assert_eq!(error.message(), "No next feature to implement");
            let error = store
                .submit_review_reply("s1", "tests added", llm_available)
                .unwrap_err();
            assert_eq!(error.kind, ErrorKind::InvalidStateTransition);
            assert_eq!(error.message(), "No next feature to implement");
        }
        assert_eq!(resident(store, "s1"), before);
    }
    // The checked-out feature is in every status but NeedsRework.
    for status in [
        FeatureStatus::Planned,
        FeatureStatus::InProgress,
        FeatureStatus::Implemented,
        FeatureStatus::Reviewed,
    ] {
        let mut session = SessionState::new("s1".to_string(), "D".to_string());
        session.planned_features.push(Feature { status, ..jump() });
        session
            .implemented_features_reports
            .insert("Jump".to_string(), "partial".to_string());
        session.next_feature_to_implement = Some("Jump".to_string());
        let before = session.clone();
        for llm_available in [false, true] {
            let error = session
                .request_review_reply("tests added", llm_available)
                .unwrap_err();
            assert_eq!(error.kind, ErrorKind::InvalidStateTransition);
            assert_eq!(
                error.message(),
                "Feature 'Jump' is not in NeedsRework status"
            );
        }
        let error = session
            .record_review_reply(Ok("SATISFIED".to_string()))
            .unwrap_err();
        assert_eq!(error.kind, ErrorKind::InvalidStateTransition);
        assert_eq!(session, before);
    }
    // An unknown session is not found, whether or not a model is configured.
    for llm_available in [false, true] {
        assert_eq!(
            fresh
                .submit_feature_review("s2", "done", llm_available)
                .unwrap_err()
                .kind,
            ErrorKind::NotFound
        );
        assert_eq!(
            fresh
                .submit_review_reply("s2", "x", llm_available)
                .unwrap_err()
                .kind,
            ErrorKind::NotFound
        );
    }
}

#[test]
fn review_without_checked_out_feature_is_an_invalid_transition() {
    let store = store_with_s1();
    let error = store.submit_feature_review("s1", "done", true).unwrap_err();
    assert_eq!(error.kind, ErrorKind::InvalidStateTransition);
    assert_eq!(error.message(), "No next feature to implement");
    let error = store
        .record_feature_review("s1", "done", Ok("SATISFIED".to_string()))
        .unwrap_err();
    assert_eq!(error.kind, ErrorKind::InvalidStateTransition);
}

#[test]
fn stale_feature_name_is_not_found() {
    let mut session = SessionState::new("s1".to_string(), "D".to_string());
    session.planned_features.push(jump());
    session.next_feature_to_implement = Some("Dash".to_string());
    for llm_available in [false, true] {
        let error = session
            .request_feature_review("done", llm_available)
            .unwrap_err();
        assert_eq!(error.kind, ErrorKind::NotFound);
        assert_eq!(
            error.message(),
            "Feature 'Dash' not found in planned features"
        );
    }
    let before = session.clone();
    let error = session
        .record_feature_review("done", Ok("SATISFIED".to_string()))
        .unwrap_err();
    assert_eq!(error.kind, ErrorKind::NotFound);
    assert_eq!(session, before);
    // A stale name does not keep the next feature from being requested.
    match session.request_next_feature(true).unwrap() {
        NextFeatureStep::AskModel(messages) => assert_eq!(messages.len(), 2),
        NextFeatureStep::Cached(_) => panic!("the stale name resolves to nothing"),
    }
}

#[test]
fn unknown_session_is_not_found() {
    let store = store_with_s1();
    let error = store.get_next_feature("s2", true).unwrap_err();
    assert_eq!(error.kind, ErrorKind::NotFound);
    assert_eq!(error.message(), "Session 's2' not found");
    assert_eq!(
        store
            .submit_feature_review("s2", "done", true)
            .unwrap_err()
            .kind,
        ErrorKind::NotFound
    );
    assert_eq!(
        store.submit_review_reply("s2", "x", true).unwrap_err().kind,
        ErrorKind::NotFound
    );
    assert_eq!(
        store
            .record_next_feature("s2", Ok(JUMP.to_string()))
            .unwrap_err()
            .kind,
        ErrorKind::NotFound
    );
    assert_eq!(
        store
            .record_feature_review("s2", "done", Ok("SATISFIED".to_string()))
            .unwrap_err()
            .kind,
        ErrorKind::NotFound
    );
    assert_eq!(
        store
            .record_review_reply("s2", Ok("SATISFIED".to_string()))
            .unwrap_err()
            .kind,
        ErrorKind::NotFound
    );
}

#[test]
fn failed_model_call_changes_nothing() {
    let mut store = store_after_proposal();
    let before = resident(&mut store, "s1");
    let error = store
        .record_next_feature("s1", Err("connection reset".to_string()))
        .unwrap_err();
    assert_eq!(error.kind, ErrorKind::LlmRequestFailed);
    assert_eq!(error.message(), "connection reset");
    let error = store
        .record_feature_review("s1", "done", Err("timeout".to_string()))
        .unwrap_err();
    assert_eq!(error.kind, ErrorKind::LlmRequestFailed);
    assert_eq!(error.message(), "timeout");
    assert_eq!(resident(&mut store, "s1"), before);

    let mut store = store_after_feedback();
    let before = resident(&mut store, "s1");
    let error = store
        .record_review_reply("s1", Err("timeout".to_string()))
        .unwrap_err();
    assert_eq!(error.kind, ErrorKind::LlmRequestFailed);
    assert_eq!(resident(&mut store, "s1"), before);
}

#[test]
fn answer_that_is_not_json_is_malformed() {
    let mut session = SessionState::new("s1".to_string(), "D".to_string());
    let before = session.clone();
    let error = session
        .record_next_feature(Ok("Sure! Here is a feature.".to_string()))
        .unwrap_err();
    assert_eq!(error.kind, ErrorKind::LlmResponseMalformed);
    assert_eq!(
        error.message(),
        "LLM response was not valid JSON: Sure! Here is a feature."
    );
    assert_eq!(session, before);
}

#[test]
fn answer_without_fields_is_malformed() {
    let mut session = SessionState::new("s1".to_string(), "D".to_string());
    let before = session.clone();
    for raw in [
        r#"{"name":"Jump"}"#,
        r#"{"description":"Implement jump"}"#,
        r#"{"name":7,"description":"Implement jump"}"#,
        r#"{"name":"Jump","description":null}"#,
        r#"["Jump","Implement jump"]"#,
        r#""Jump""#,
        "{}",
    ] {
        let error = session.record_next_feature(Ok(raw.to_string())).unwrap_err();
        assert_eq!(error.kind, ErrorKind::LlmResponseMalformed);
        assert_eq!(
            error.message(),
            format!(
                "LLM response did not contain expected 'name' and 'description' fields: {}",
                raw
            )
        );
        assert_eq!(session, before);
    }
}

#[test]
fn second_report_replaces_the_first() {
    let mut store = store_after_feedback();
    let (session, _) = store
        .record_feature_review("s1", "with tests", Ok("  satisfied\n".to_string()))
        .unwrap();
    assert_eq!(session.implemented_features_reports.len(), 1);
    assert_eq!(
        session
            .implemented_features_reports
            .get(&"Jump".to_string()),
        Some(&"with tests".to_string())
    );
    assert_eq!(session.planned_features[0].status, FeatureStatus::Reviewed);
    assert_eq!(session.next_feature_to_implement, None);
    store.save_session(session, Ok(())).unwrap();
}

#[test]
fn features_with_the_same_name_are_both_planned() {
    let mut session = SessionState::new("s1".to_string(), "D".to_string());
    session.record_next_feature(Ok(JUMP.to_string())).unwrap();
    session
        .record_feature_review("done", Ok("SATISFIED".to_string()))
        .unwrap();
    let second = r#"{"name":"Jump","description":"Jump higher"}"#;
    let text = session.record_next_feature(Ok(second.to_string())).unwrap();
    assert_eq!(text, "Jump higher");
    assert_eq!(session.planned_features.len(), 2);
    assert_eq!(session.planned_features[0].status, FeatureStatus::Reviewed);
    assert_eq!(session.planned_features[1].status, FeatureStatus::Planned);
    // The name resolves to the first feature that bears it.
    assert_eq!(
        session.request_next_feature(false).unwrap(),
        NextFeatureStep::Cached("Implement jump".to_string())
    );
}

#[test]
fn whole_lifecycle_of_two_features() {
    let mut session = SessionState::new("s1".to_string(), "D".to_string());
    session.record_next_feature(Ok(JUMP.to_string())).unwrap();
    session
        .record_feature_review("partial", Ok("Please add tests".to_string()))
        .unwrap();
    session
        .record_review_reply(Ok("Satisfied".to_string()))
        .unwrap();
    let dash = r#"{"name":"Dash","description":"Implement dash","extra":1}"#;
    assert_eq!(
        session.record_next_feature(Ok(dash.to_string())).unwrap(),
        "Implement dash"
    );
    session
        .record_feature_review("dash done", Ok("SATISFIED".to_string()))
        .unwrap();
    assert_eq!(session.planned_features.len(), 2);
    assert_eq!(session.planned_features[0].status, FeatureStatus::Reviewed);
    assert_eq!(session.planned_features[1].status, FeatureStatus::Reviewed);
    assert_eq!(session.next_feature_to_implement, None);
    assert_eq!(session.implemented_features_reports.len(), 2);
    assert_eq!(session.implemented_features_reports.name_at(0), "Jump");
    assert_eq!(session.implemented_features_reports.text_at(0), "partial");
    assert_eq!(session.implemented_features_reports.name_at(1), "Dash");
    assert_eq!(session.implemented_features_reports.text_at(1), "dash done");
    assert!(session.llm_chat_history.is_empty());
    let unused: Vec<ChatMessage> = Vec::new();
    assert_eq!(session.llm_chat_history, unused);
}
