use audit_agent::agents::multi_agent_system::{
    MultiAIAgentSystem, MultiAIAgentSystemTrait, TaskOutcome,
};
use audit_agent::models::report::{MalformedAggregateOutput, VulnerabilityReport};
use audit_agent::models::severity::Severity;
use audit_agent::models::vulnerability::Vulnerability;
use audit_agent::remote::ChatOutcome;
use audit_agent::server::audit::{plan_merge, AuditAction, AuditEvent, AuditState};
use audit_agent::server::request::AuditRequest;
use audit_agent::server::response::{AuditErrorResponse, AuditResponse};

const MERGED: &str = r#"{"vulnerabilities":[{"name":"Reentrancy","severity":"high","description":"d","location":"l","impacted_code":"c","recommendations":"r"}]}"#;

const STORED: &str = r#"[{"name":"Reentrancy","severity":"high","description":"d","location":"l","impacted_code":"c","recommendations":"r"}]"#;

fn merged_report() -> VulnerabilityReport {
    VulnerabilityReport {
        vulnerabilities: vec![Vulnerability {
            name: "Reentrancy".to_string(),
            severity: Severity::High,
            description: "d".to_string(),
            location: "l".to_string(),
            impacted_code: "c".to_string(),
            recommendation: "r".to_string(),
        }],
    }
}

fn offered() -> (Vec<String>, Vec<String>) {
    (vec!["gpt-4o".to_string()], vec!["Solidity".to_string()])
}

fn request() -> AuditRequest {
    AuditRequest {
        contract_code: "contract C {}".to_string(),
        language: "Solidity".to_string(),
        model: "gpt-4o".to_string(),
    }
}

fn analyzing() -> AuditState {
    AuditState::Analyzing { model: "gpt-4o".to_string(), language: "Solidity".to_string() }
}

fn some_outcomes() -> Vec<TaskOutcome> {
    vec![
        TaskOutcome::Completed(Some(("Reentrancy Agent".to_string(), "one".to_string()))),
        TaskOutcome::Crashed,
        TaskOutcome::Completed(None),
        TaskOutcome::Completed(Some(("Gas Agent".to_string(), "two".to_string()))),
    ]
}

#[test]
fn an_audit_begins_with_the_fan_out() {
    let (models, languages) = offered();
    let (state, action) = AuditState::start(&request(), &models, &languages);
    assert_eq!(state, analyzing());
    assert!(!state.is_done());
    assert_eq!(
        action,
        AuditAction::Analyze(MultiAIAgentSystem::new("Solidity").analyze_contract(
            "contract C {}",
            "gpt-4o",
            "Solidity"
        ))
    );
}

#[test]
fn an_audit_that_fails_its_check_is_done_at_once() {
    let (models, languages) = offered();
    let mut bad = request();
    bad.model = "gpt-5".to_string();
    let (state, action) = AuditState::start(&bad, &models, &languages);
    assert!(state.is_done());
    assert_eq!(
        action,
        AuditAction::Reject(AuditErrorResponse {
            error: "Selected AI model is not supported".to_string()
        })
    );
}

#[test]
fn findings_lead_to_the_one_request_to_merge() {
    let (state, action) = analyzing().step(AuditEvent::Analyzed(some_outcomes()));
    assert_eq!(state, AuditState::Merging);
    assert_eq!(
        action,
        Some(AuditAction::Merge(plan_merge(&some_outcomes(), "gpt-4o", "Solidity").unwrap()))
    );
    match action {
        Some(AuditAction::Merge(call)) => {
            assert!(call.prompt.contains(r#"{"All":["one","two"]}"#));
            assert_eq!(call.model, "gpt-4o");
        }
        other => panic!("{:?}", other),
    }
}

#[test]
fn an_audit_without_findings_skips_the_merge() {
    let silent = vec![TaskOutcome::Crashed, TaskOutcome::Completed(None), TaskOutcome::Crashed];
    let (state, action) = analyzing().step(AuditEvent::Analyzed(silent));
    assert_eq!(state, AuditState::Storing { report: VulnerabilityReport::new() });
    assert_eq!(action, Some(AuditAction::Store("[]".to_string())));
    let (state, action) = analyzing().step(AuditEvent::Analyzed(Vec::new()));
    assert_eq!(state, AuditState::Storing { report: VulnerabilityReport::new() });
    assert_eq!(action, Some(AuditAction::Store("[]".to_string())));
}

#[test]
fn a_merged_answer_is_stored_as_a_report() {
    let answer = ChatOutcome::Answered(Some(format!("```json\n{}\n```", MERGED)));
    let (state, action) = AuditState::Merging.step(AuditEvent::Merged(answer));
    assert_eq!(state, AuditState::Storing { report: merged_report() });
    assert_eq!(action, Some(AuditAction::Store(STORED.to_string())));
}

#[test]
fn a_merge_without_text_stores_the_empty_report() {
    for outcome in [ChatOutcome::Failed, ChatOutcome::Answered(None)] {
        let (state, action) = AuditState::Merging.step(AuditEvent::Merged(outcome));
        assert_eq!(state, AuditState::Storing { report: VulnerabilityReport::new() });
        assert_eq!(action, Some(AuditAction::Store("[]".to_string())));
    }
}

#[test]
fn a_merged_answer_that_is_no_report_ends_the_audit() {
    let cases = [
        ("sorry, no", MalformedAggregateOutput::InvalidJson),
        ("{}", MalformedAggregateOutput::MissingVulnerabilities),
        ("{\"vulnerabilities\": {}}", MalformedAggregateOutput::VulnerabilitiesNotArray),
        ("{\"vulnerabilities\": [1]}", MalformedAggregateOutput::MalformedEntry { index: 0 }),
    ];
    for (text, malformed) in cases {
        let answer = ChatOutcome::Answered(Some(text.to_string()));
        let (state, action) = AuditState::Merging.step(AuditEvent::Merged(answer));
        assert!(state.is_done());
        assert_eq!(action, Some(AuditAction::Abort(malformed)));
    }
}

#[test]
fn a_failed_store_does_not_touch_the_report() {
    let storing = AuditState::Storing { report: merged_report() };
    let (state, action) = storing.step(AuditEvent::Stored(None));
    assert!(state.is_done());
    assert_eq!(
        action,
        Some(AuditAction::Respond(AuditResponse {
            report: merged_report(),
            _id: "no ID generated".to_string()
        }))
    );
}

#[test]
fn a_stored_report_is_answered_under_its_id() {
    let storing = AuditState::Storing { report: merged_report() };
    let (state, action) = storing.step(AuditEvent::Stored(Some("0x1f".to_string())));
    assert_eq!(state, AuditState::Done);
    assert_eq!(
        action,
        Some(AuditAction::Respond(AuditResponse {
            report: merged_report(),
            _id: "0x1f".to_string()
        }))
    );
}

#[test]
fn an_event_out_of_turn_changes_nothing() {
    let (state, action) = analyzing().step(AuditEvent::Stored(None));
    assert_eq!(state, analyzing());
    assert_eq!(action, None);
    let (state, action) = AuditState::Merging.step(AuditEvent::Analyzed(some_outcomes()));
    assert_eq!(state, AuditState::Merging);
    assert_eq!(action, None);
    let storing = AuditState::Storing { report: merged_report() };
    let (state, action) = storing.step(AuditEvent::Merged(ChatOutcome::Failed));
    assert_eq!(state, AuditState::Storing { report: merged_report() });
    assert_eq!(action, None);
    for event in [
        AuditEvent::Analyzed(Vec::new()),
        AuditEvent::Merged(ChatOutcome::Failed),
        AuditEvent::Stored(None),
    ] {
        let (state, action) = AuditState::Done.step(event);
        assert_eq!(state, AuditState::Done);
        assert_eq!(action, None);
    }
}

#[test]
fn a_whole_audit_runs_from_request_to_answer() {
    let (models, languages) = offered();
    let (state, action) = AuditState::start(&request(), &models, &languages);
    let tasks = match action {
        AuditAction::Analyze(tasks) => tasks,
        other => panic!("{:?}", other),
    };
    let outcomes: Vec<TaskOutcome> = tasks
        .iter()
        .enumerate()
        .map(|(i, task)| {
            let outcome = if i % 2 == 0 {
                ChatOutcome::Answered(Some(format!("finding {}", i)))
            } else {
                ChatOutcome::Failed
            };
            TaskOutcome::Completed(task.finish(outcome))
        })
        .collect();
    let (state, action) = state.step(AuditEvent::Analyzed(outcomes));
    let call = match action {
        Some(AuditAction::Merge(call)) => call,
        other => panic!("{:?}", other),
    };
    assert!(call
        .prompt
        .contains(r#"{"All":["finding 0","finding 2","finding 4","finding 6"]}"#));
    let answer = ChatOutcome::Answered(Some(MERGED.to_string()));
    let (state, action) = state.step(AuditEvent::Merged(answer));
    assert_eq!(action, Some(AuditAction::Store(STORED.to_string())));
    let (state, action) = state.step(AuditEvent::Stored(Some("42".to_string())));
    assert!(state.is_done());
    assert_eq!(
        action,
        Some(AuditAction::Respond(AuditResponse { report: merged_report(), _id: "42".to_string() }))
    );
}
