use audit_agent::agents::ai_agent::AIAgent;
use audit_agent::agents::multi_agent_system::{
    AnalysisTask, MultiAIAgentSystem, MultiAIAgentSystemTrait, TaskOutcome,
};
use audit_agent::agents::specialized_auditors::{
    create_access_control_agent, create_contract_validation_agent, create_events_agent,
    create_gas_agent, create_general_security_agent, create_integer_overflow_agent,
    create_logic_agent, create_reentrancy_agent,
};
use audit_agent::remote::{ChatCall, ChatOutcome};

fn expected_output_prompt(language: &str) -> String {
    format!(
        r#"Return your findings in the following JSON format:
            {{
                "vulnerabilities": [
                    {{
                        "name": "vulnerability name",
                        "severity": "critical/high/medium/low",
                        "description": "detailed description",
                        "location": "function or line reference",
                        "impacted_code": "impacted code block",
                        "recommendations": "how to fix"
                    }}
                ]
            }}
            If no vulnerabilities are found, return an empty array.
            If the input is invalid {} code, the output should be a JSON object with an error message."#,
        language
    )
}

fn expected_analysis_prompt(role: &str, language: &str, code: &str) -> String {
    format!(
        "{} {} \n\nAnalyze this {} code for vulnerabilities:\n\n{}",
        role,
        expected_output_prompt(language),
        language,
        code
    )
}

fn finding(name: &str, text: &str) -> TaskOutcome {
    TaskOutcome::Completed(Some((name.to_string(), text.to_string())))
}

#[test]
fn an_analyzer_keeps_its_name_and_role() {
    let agent = AIAgent::new("Gas Agent", "You watch the gas.".to_string());
    assert_eq!(agent.name, "Gas Agent");
    assert_eq!(agent.prompt, "You watch the gas.");
}

#[test]
fn the_output_prompt_names_the_language() {
    let agent = AIAgent::new("any", "role".to_string());
    assert_eq!(agent.get_output_prompt("Solidity"), expected_output_prompt("Solidity"));
    assert_eq!(agent.get_output_prompt(""), expected_output_prompt(""));
    assert!(agent
        .get_output_prompt("Cairo")
        .ends_with("If the input is invalid Cairo code, the output should be a JSON object with an error message."));
    assert!(agent
        .get_output_prompt("Cairo")
        .starts_with("Return your findings in the following JSON format:\n            {\n"));
}

#[test]
fn an_analysis_carries_role_schema_and_code() {
    let agent = AIAgent::new("Gas Agent", "You watch the gas.".to_string());
    let call = agent.analyze("contract C {}", "gpt-4o-mini", "Solidity");
    assert_eq!(call.model, "gpt-4o-mini");
    assert_eq!(
        call.prompt,
        expected_analysis_prompt("You watch the gas.", "Solidity", "contract C {}")
    );
    assert!(call.prompt.starts_with("You watch the gas. Return your findings"));
    assert!(call
        .prompt
        .ends_with(" \n\nAnalyze this Solidity code for vulnerabilities:\n\ncontract C {}"));
}

#[test]
fn a_session_has_one_analyzer_for_each_specialization() {
    let system = MultiAIAgentSystem::new("Solidity");
    assert_eq!(system.agent_count(), 8);
    let by_hand = MultiAIAgentSystem::with_agents(vec![
        create_reentrancy_agent("Solidity"),
        create_integer_overflow_agent("Solidity"),
        create_access_control_agent("Solidity"),
        create_events_agent("Solidity"),
        create_contract_validation_agent("Solidity"),
        create_gas_agent("Solidity"),
        create_logic_agent("Solidity"),
        create_general_security_agent("Solidity"),
    ]);
    assert_eq!(system, by_hand);
}

#[test]
fn the_fan_out_has_one_unit_for_each_analyzer() {
    let system = MultiAIAgentSystem::new("Solidity");
    let tasks = system.analyze_contract("contract C {}", "gpt-4o", "Solidity");
    let names: Vec<&str> = tasks.iter().map(|t| t.agent_name.as_str()).collect();
    assert_eq!(
        names,
        vec![
            "Reentrancy Agent",
            "Integer Overflow Agent",
            "Access Control Agent",
            "Events Agent",
            "Validation Agent",
            "Gas Agent",
            "Logic Agent",
            "General Security Agent",
        ]
    );
    let mut distinct = names.clone();
    distinct.sort();
    distinct.dedup();
    assert_eq!(distinct.len(), 8);
    for task in &tasks {
        assert_eq!(task.call.model, "gpt-4o");
    }
    let gas = create_gas_agent("Solidity");
    assert_eq!(
        tasks[5].call.prompt,
        expected_analysis_prompt(&gas.prompt, "Solidity", "contract C {}")
    );
    assert_eq!(tasks[5].call, gas.analyze("contract C {}", "gpt-4o", "Solidity"));
}

#[test]
fn a_session_without_analyzers_has_no_units() {
    let system = MultiAIAgentSystem::with_agents(Vec::new());
    assert_eq!(system.agent_count(), 0);
    assert!(system.analyze_contract("code", "model", "Solidity").is_empty());
}

#[test]
fn a_unit_ends_with_the_text_under_its_name() {
    let task = AnalysisTask {
        agent_name: "Gas Agent".to_string(),
        call: ChatCall::new("m", "p".to_string()),
    };
    assert_eq!(
        task.finish(ChatOutcome::Answered(Some("found".to_string()))),
        Some(("Gas Agent".to_string(), "found".to_string()))
    );
    assert_eq!(task.finish(ChatOutcome::Answered(None)), None);
    assert_eq!(task.finish(ChatOutcome::Failed), None);
}

#[test]
fn an_outcome_yields_its_text() {
    assert_eq!(
        ChatOutcome::Answered(Some("t".to_string())).into_text(),
        Some("t".to_string())
    );
    assert_eq!(ChatOutcome::Answered(Some(String::new())).into_text(), Some(String::new()));
    assert_eq!(ChatOutcome::Answered(None).into_text(), None);
    assert_eq!(ChatOutcome::Failed.into_text(), None);
}

#[test]
fn only_units_with_a_finding_leave_an_entry() {
    let outcomes = vec![
        finding("Reentrancy Agent", "r"),
        TaskOutcome::Completed(None),
        TaskOutcome::Crashed,
        finding("Gas Agent", "g"),
    ];
    let findings = MultiAIAgentSystem::collect(&outcomes);
    assert_eq!(findings.len(), 2);
    assert_eq!(findings.get("Reentrancy Agent"), Some(&"r".to_string()));
    assert_eq!(findings.get("Gas Agent"), Some(&"g".to_string()));
    assert_eq!(findings.get("Events Agent"), None);
    assert_eq!(findings.values(), vec![&"r".to_string(), &"g".to_string()]);
}

#[test]
fn units_that_all_fail_leave_an_empty_mapping() {
    let outcomes = vec![
        TaskOutcome::Crashed,
        TaskOutcome::Completed(None),
        TaskOutcome::Completed(None),
        TaskOutcome::Crashed,
    ];
    assert!(MultiAIAgentSystem::collect(&outcomes).is_empty());
    assert!(MultiAIAgentSystem::collect(&Vec::new()).is_empty());
}

#[test]
fn a_later_finding_under_one_name_replaces_an_earlier_one() {
    let outcomes = vec![finding("a", "1"), finding("b", "2"), finding("a", "3")];
    let findings = MultiAIAgentSystem::collect(&outcomes);
    assert_eq!(findings.len(), 2);
    assert_eq!(findings.values(), vec![&"3".to_string(), &"2".to_string()]);
}
