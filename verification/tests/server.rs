use audit_agent::agents::chat_agent::ChatAgent;
use audit_agent::agents::fixing_agent::FixingAgent;
use audit_agent::agents::multi_agent_system::{MultiAIAgentSystem, MultiAIAgentSystemTrait};
use audit_agent::models::report::VulnerabilityReport;
use audit_agent::models::severity::Severity;
use audit_agent::models::vulnerability::Vulnerability;
use audit_agent::remote::ChatOutcome;
use audit_agent::server::audit::plan_audit;
use audit_agent::server::handlers::{answer_chat, answer_fix, plan_chat, plan_fix};
use audit_agent::server::request::{
    is_offered, AuditRequest, ChatRequest, FixRequest, HistoryRequest, RequestRejection,
};
use audit_agent::server::response::{
    AuditErrorResponse, AuditResponse, ChatResponse, FixResponse, HistoryResponse,
};

fn models() -> Vec<String> {
    vec!["gpt-4o".to_string(), "gpt-4o-mini".to_string()]
}

fn languages() -> Vec<String> {
    vec!["Solidity".to_string(), "Cairo".to_string()]
}

fn audit(code: &str, language: &str, model: &str) -> AuditRequest {
    AuditRequest {
        contract_code: code.to_string(),
        language: language.to_string(),
        model: model.to_string(),
    }
}

fn some_finding() -> Vulnerability {
    Vulnerability {
        name: "n".to_string(),
        severity: Severity::Medium,
        description: "d".to_string(),
        location: "l".to_string(),
        impacted_code: "c".to_string(),
        recommendation: "r".to_string(),
    }
}

fn fix(code: &str, language: &str, model: &str, findings: Vec<Vulnerability>) -> FixRequest {
    FixRequest {
        contract_code: code.to_string(),
        language: language.to_string(),
        model: model.to_string(),
        vulnerabilities: findings,
    }
}

fn error(text: &str) -> AuditErrorResponse {
    AuditErrorResponse { error: text.to_string() }
}

#[test]
fn an_offer_holds_what_it_lists() {
    assert!(is_offered(&models(), "gpt-4o-mini"));
    assert!(!is_offered(&models(), "gpt-4"));
    assert!(!is_offered(&models(), "GPT-4o"));
    assert!(!is_offered(&Vec::new(), ""));
}

#[test]
fn a_rejection_says_why() {
    assert_eq!(RequestRejection::EmptyParameter.message(), "Request parameters cannot be empty");
    assert_eq!(
        RequestRejection::UnsupportedModel.message(),
        "Selected AI model is not supported"
    );
    assert_eq!(
        RequestRejection::UnsupportedLanguage.message(),
        "Selected smart contract language is not supported"
    );
    assert_eq!(
        AuditErrorResponse::rejected(RequestRejection::UnsupportedModel),
        error("Selected AI model is not supported")
    );
}

#[test]
fn an_audit_request_is_checked_in_order() {
    let m = models();
    let l = languages();
    assert_eq!(audit("code", "Solidity", "gpt-4o").check(&m, &l), None);
    assert_eq!(
        audit(" \n", "Solidity", "gpt-4o").check(&m, &l),
        Some(RequestRejection::EmptyParameter)
    );
    assert_eq!(
        audit("code", "", "gpt-4o").check(&m, &l),
        Some(RequestRejection::EmptyParameter)
    );
    assert_eq!(
        audit("code", "Solidity", "\t").check(&m, &l),
        Some(RequestRejection::EmptyParameter)
    );
    assert_eq!(
        audit("", "Move", "gpt-5").check(&m, &l),
        Some(RequestRejection::EmptyParameter)
    );
    assert_eq!(
        audit("code", "Move", "gpt-5").check(&m, &l),
        Some(RequestRejection::UnsupportedModel)
    );
    assert_eq!(
        audit("code", "Move", "gpt-4o").check(&m, &l),
        Some(RequestRejection::UnsupportedLanguage)
    );
    assert_eq!(
        audit("code", " Solidity", "gpt-4o").check(&m, &l),
        Some(RequestRejection::UnsupportedLanguage)
    );
}

#[test]
fn a_fix_request_needs_findings() {
    let m = models();
    let l = languages();
    assert_eq!(fix("code", "Cairo", "gpt-4o", vec![some_finding()]).check(&m, &l), None);
    assert_eq!(
        fix("code", "Cairo", "gpt-4o", Vec::new()).check(&m, &l),
        Some(RequestRejection::EmptyParameter)
    );
    assert_eq!(
        fix("code", "Cairo", "gpt-5", Vec::new()).check(&m, &l),
        Some(RequestRejection::EmptyParameter)
    );
    assert_eq!(
        fix("code", "Cairo", "gpt-5", vec![some_finding()]).check(&m, &l),
        Some(RequestRejection::UnsupportedModel)
    );
    assert_eq!(
        fix("code", "Move", "gpt-4o", vec![some_finding()]).check(&m, &l),
        Some(RequestRejection::UnsupportedLanguage)
    );
    assert_eq!(
        fix(" ", "Cairo", "gpt-4o", vec![some_finding()]).check(&m, &l),
        Some(RequestRejection::EmptyParameter)
    );
}

#[test]
fn a_question_is_checked_in_order() {
    let m = models();
    let ask = |text: &str, model: &str| ChatRequest { text: text.to_string(), model: model.to_string() };
    assert_eq!(ask("why?", "gpt-4o").check(&m), None);
    assert_eq!(ask("  ", "gpt-4o").check(&m), Some(RequestRejection::EmptyParameter));
    assert_eq!(ask("why?", "").check(&m), Some(RequestRejection::EmptyParameter));
    assert_eq!(ask("why?", "gpt-5").check(&m), Some(RequestRejection::UnsupportedModel));
}

#[test]
fn an_audit_that_passes_is_fanned_out() {
    let request = audit("contract C {}", "Solidity", "gpt-4o");
    let tasks = plan_audit(&request, &models(), &languages()).unwrap();
    assert_eq!(
        tasks,
        MultiAIAgentSystem::new("Solidity").analyze_contract("contract C {}", "gpt-4o", "Solidity")
    );
    assert_eq!(tasks.len(), 8);
}

#[test]
fn an_audit_that_fails_its_check_is_turned_away() {
    assert_eq!(
        plan_audit(&audit("", "Solidity", "gpt-4o"), &models(), &languages()),
        Err(error("Request parameters cannot be empty"))
    );
    assert_eq!(
        plan_audit(&audit("c", "Solidity", "gpt"), &models(), &languages()),
        Err(error("Selected AI model is not supported"))
    );
    assert_eq!(
        plan_audit(&audit("c", "Rust", "gpt-4o"), &models(), &languages()),
        Err(error("Selected smart contract language is not supported"))
    );
}

#[test]
fn a_fix_that_passes_is_one_request() {
    let request = fix("contract C {}", "Solidity", "gpt-4o", vec![some_finding()]);
    assert_eq!(
        plan_fix(request, &models(), &languages()),
        Ok(FixingAgent::fix(
            "contract C {}".to_string(),
            vec![some_finding()],
            "gpt-4o",
            "Solidity"
        )
        .unwrap())
    );
    assert_eq!(
        plan_fix(fix("c", "Solidity", "gpt-4o", Vec::new()), &models(), &languages()),
        Err(error("Request parameters cannot be empty"))
    );
    assert_eq!(
        plan_fix(fix("c", "Solidity", "x", vec![some_finding()]), &models(), &languages()),
        Err(error("Selected AI model is not supported"))
    );
    assert_eq!(
        plan_fix(fix("c", "y", "gpt-4o", vec![some_finding()]), &models(), &languages()),
        Err(error("Selected smart contract language is not supported"))
    );
}

#[test]
fn a_question_that_passes_is_one_request() {
    let request = ChatRequest { text: "why?".to_string(), model: "gpt-4o".to_string() };
    assert_eq!(
        plan_chat(request, &models()),
        Ok(ChatAgent::chat("why?".to_string(), "gpt-4o").unwrap())
    );
    assert_eq!(
        plan_chat(ChatRequest { text: " ".to_string(), model: "gpt-4o".to_string() }, &models()),
        Err(error("Request parameters cannot be empty"))
    );
    assert_eq!(
        plan_chat(ChatRequest { text: "why?".to_string(), model: "x".to_string() }, &models()),
        Err(error("Selected AI model is not supported"))
    );
}

#[test]
fn a_fix_answers_with_the_code_or_says_that_there_is_none() {
    assert_eq!(
        answer_fix(ChatOutcome::Answered(Some("fixed".to_string()))),
        Ok(FixResponse { code: "fixed".to_string() })
    );
    assert_eq!(answer_fix(ChatOutcome::Answered(None)), Err(error("No fixed code returned")));
    assert_eq!(answer_fix(ChatOutcome::Failed), Err(error("No fixed code returned")));
    assert_eq!(FixResponse::from_fixed(None), Err(error("No fixed code returned")));
}

#[test]
fn a_question_answers_with_the_text_or_says_that_there_is_none() {
    assert_eq!(
        answer_chat(ChatOutcome::Answered(Some("because".to_string()))),
        Ok(ChatResponse { text: "because".to_string() })
    );
    let none = Err(ChatResponse { text: "No response from AI".to_string() });
    assert_eq!(answer_chat(ChatOutcome::Answered(None)), none);
    assert_eq!(answer_chat(ChatOutcome::Failed), none);
    assert_eq!(ChatResponse::from_answer(None), none);
}

#[test]
fn a_report_that_could_not_be_stored_is_answered_all_the_same() {
    let report = VulnerabilityReport { vulnerabilities: vec![some_finding()] };
    let response = AuditResponse::new(report.clone(), None);
    assert_eq!(response.report, report);
    assert_eq!(response._id, "no ID generated");
}

#[test]
fn a_stored_report_is_answered_with_its_id() {
    let report = VulnerabilityReport { vulnerabilities: vec![some_finding()] };
    let response = AuditResponse::new(report.clone(), Some("0xabc".to_string()));
    assert_eq!(response, AuditResponse { report, _id: "0xabc".to_string() });
    let empty = AuditResponse::new(VulnerabilityReport::new(), Some(String::new()));
    assert_eq!(empty._id, "");
}

#[test]
fn a_history_answer_holds_what_was_loaded() {
    assert_eq!(
        HistoryResponse::from_loaded(Some(vec![some_finding()])),
        HistoryResponse { report: vec![some_finding()] }
    );
    assert_eq!(HistoryResponse::from_loaded(None), HistoryResponse { report: Vec::new() });
    assert_eq!(HistoryRequest { id: "7".to_string() }.id, "7");
}
