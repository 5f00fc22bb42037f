use crate::agents::ai_agent::{AIAgent, AgentView};
use vstd::prelude::*;

verus! {

/// The name of the analyzer of reentrancy.
pub const REENTRANCY_NAME: &'static str = "Reentrancy Agent";

/// The role of the analyzer of reentrancy, up to the language.
pub const REENTRANCY_OPENING: &'static str = "
    You are a ";

/// The same, between its two mentions of the language.
pub const REENTRANCY_MIDDLE: &'static str = " smart contract security expert specializing in detecting reentrancy vulnerabilities.
    Reentrancy occurs when a contract calls an external contract before updating its state, allowing the external contract to call back into the original contract.
    Analyze the provided ";

/// The same, from the last mention of the language on.
pub const REENTRANCY_CLOSING: &'static str = " code and identify any reentrancy vulnerabilities.
    Avoid suggestions for future development.
    ";

/// The name of the analyzer of integer overflow and underflow.
pub const INTEGER_OVERFLOW_NAME: &'static str = "Integer Overflow Agent";

/// The role of the analyzer of integer overflow and underflow, up to the language.
pub const INTEGER_OVERFLOW_OPENING: &'static str = "
    You are a ";

/// The same, between its two mentions of the language.
pub const INTEGER_OVERFLOW_MIDDLE: &'static str = " smart contract security expert specializing in detecting integer overflow/underflow vulnerabilities.
    Integer overflow/underflow occurs when arithmetic operations exceed the maximum or minimum limits of the data type.
    Analyze the provided ";

/// The same, from the last mention of the language on.
pub const INTEGER_OVERFLOW_CLOSING: &'static str = " code and identify any integer overflow/underflow vulnerabilities. Provide detailed explanations and suggestions for fixes.
    Avoid suggestions for future development.
    ";

/// The name of the analyzer of access control.
pub const ACCESS_CONTROL_NAME: &'static str = "Access Control Agent";

/// The role of the analyzer of access control, up to the language.
pub const ACCESS_CONTROL_OPENING: &'static str = "
    You are a ";

/// The same, between its two mentions of the language.
pub const ACCESS_CONTROL_MIDDLE: &'static str = " smart contract security expert specializing in detecting access control vulnerabilities.
    Access control vulnerabilities occur when functions or state variables are not properly restricted, allowing unauthorized users to access or modify them.
    Analyze the provided ";

/// The same, from the last mention of the language on.
pub const ACCESS_CONTROL_CLOSING: &'static str = " code and identify any access control vulnerabilities. Provide detailed explanations and suggestions for fixes.
    Avoid suggestions for future development.
    ";

/// The name of the analyzer of validation of values.
pub const VALIDATION_NAME: &'static str = "Validation Agent";

/// The role of the analyzer of validation of values, up to the language.
pub const VALIDATION_OPENING: &'static str = "
    You are a ";

/// The same, between its two mentions of the language.
pub const VALIDATION_MIDDLE: &'static str = " smart contract security expert specializing in detecting validation issues and vulnerabilities.
    Make sure all variables have valid values, validate amounts, suggest when to use require checks if missing.
    Analyze the provided ";

/// The same, from the last mention of the language on.
pub const VALIDATION_CLOSING: &'static str = " code and identify any validation vulnerabilities. Provide detailed explanations and suggestions for fixes.
    Avoid suggestions for future development.
    ";

/// The name of the analyzer of events.
pub const EVENTS_NAME: &'static str = "Events Agent";

/// The role of the analyzer of events, up to the language.
pub const EVENTS_OPENING: &'static str = "
    You are a ";

/// The same, between its two mentions of the language.
pub const EVENTS_MIDDLE: &'static str = " smart contract security expert specializing in detecting issues with events.
    Make sure to suggest when events should be emitted in the provided code or when events are redundant. 
    Analyze the provided ";

/// The same, from the last mention of the language on.
pub const EVENTS_CLOSING: &'static str = " code and identify any event issues. Provide detailed explanations and suggestions for fixes.
    Avoid suggestions for future development.
    ";

/// The name of the analyzer of gas use.
pub const GAS_NAME: &'static str = "Gas Agent";

/// The role of the analyzer of gas use, up to the language.
pub const GAS_OPENING: &'static str = "
    You are a ";

/// The same, between its two mentions of the language.
pub const GAS_MIDDLE: &'static str = " smart contract security expert specializing in detecting gas optimisation issues.
    Analyze the provided ";

/// The same, from the last mention of the language on.
pub const GAS_CLOSING: &'static str = " code and identify any gas optimisation issues os suggestions. Provide detailed explanations and suggestions for fixes.
    Avoid suggestions for future development.
    ";

/// The name of the analyzer of contract logic.
pub const LOGIC_NAME: &'static str = "Logic Agent";

/// The role of the analyzer of contract logic, up to the language.
pub const LOGIC_OPENING: &'static str = "
    You are a ";

/// The same, between its two mentions of the language.
pub const LOGIC_MIDDLE: &'static str = " smart contract security expert specializing in detecting business logic vulnerabilities.
    Business logic vulnerabilities occur when the code does not do what the contract is meant to do: wrong conditions, a wrong order of operations, or states that cannot be reached or left.
    Analyze the provided ";

/// The same, from the last mention of the language on.
pub const LOGIC_CLOSING: &'static str = " code and identify any business logic vulnerabilities. Provide detailed explanations and suggestions for fixes.
    Avoid suggestions for future development.
    ";

/// The name of the analyzer of security in general.
pub const GENERAL_SECURITY_NAME: &'static str = "General Security Agent";

/// The role of the analyzer of security in general, up to the language.
pub const GENERAL_SECURITY_OPENING: &'static str = "
    You are a ";

/// The same, from the last mention of the language on.
pub const GENERAL_SECURITY_CLOSING: &'static str = " smart contract security expert.
    Avoid suggestions for future development. Detect if contract code is invalid and cannot be analyzed.
    ";

/// The role of the analyzer of reentrancy for contracts in `language`.
pub open spec fn reentrancy_role(language: Seq<char>) -> Seq<char> {
    REENTRANCY_OPENING@ + language + REENTRANCY_MIDDLE@ + language + REENTRANCY_CLOSING@
}

/// The role of the analyzer of integer overflow and underflow for contracts in `language`.
pub open spec fn integer_overflow_role(language: Seq<char>) -> Seq<char> {
    INTEGER_OVERFLOW_OPENING@ + language + INTEGER_OVERFLOW_MIDDLE@ + language + INTEGER_OVERFLOW_CLOSING@
}

/// The role of the analyzer of access control for contracts in `language`.
pub open spec fn access_control_role(language: Seq<char>) -> Seq<char> {
    ACCESS_CONTROL_OPENING@ + language + ACCESS_CONTROL_MIDDLE@ + language + ACCESS_CONTROL_CLOSING@
}

/// The role of the analyzer of validation of values for contracts in `language`.
pub open spec fn validation_role(language: Seq<char>) -> Seq<char> {
    VALIDATION_OPENING@ + language + VALIDATION_MIDDLE@ + language + VALIDATION_CLOSING@
}

/// The role of the analyzer of events for contracts in `language`.
pub open spec fn events_role(language: Seq<char>) -> Seq<char> {
    EVENTS_OPENING@ + language + EVENTS_MIDDLE@ + language + EVENTS_CLOSING@
}

/// The role of the analyzer of gas use for contracts in `language`.
pub open spec fn gas_role(language: Seq<char>) -> Seq<char> {
    GAS_OPENING@ + language + GAS_MIDDLE@ + language + GAS_CLOSING@
}

/// The role of the analyzer of contract logic for contracts in `language`.
pub open spec fn logic_role(language: Seq<char>) -> Seq<char> {
    LOGIC_OPENING@ + language + LOGIC_MIDDLE@ + language + LOGIC_CLOSING@
}

/// The role of the analyzer of security in general for contracts in `language`.
pub open spec fn general_security_role(language: Seq<char>) -> Seq<char> {
    GENERAL_SECURITY_OPENING@ + language + GENERAL_SECURITY_CLOSING@
}

/// The analyzer of reentrancy for contracts in `language`.
pub fn create_reentrancy_agent(language: &str) -> (agent: AIAgent)
    ensures
        agent@ == (AgentView { name: REENTRANCY_NAME@, prompt: reentrancy_role(language@) }),
{
    let mut role = String::from_str(REENTRANCY_OPENING);
    role.append(language);
    role.append(REENTRANCY_MIDDLE);
    role.append(language);
    role.append(REENTRANCY_CLOSING);
    AIAgent::new(REENTRANCY_NAME, role)
}

/// The analyzer of integer overflow and underflow for contracts in `language`.
pub fn create_integer_overflow_agent(language: &str) -> (agent: AIAgent)
    ensures
        agent@ == (AgentView {
            name: INTEGER_OVERFLOW_NAME@,
            prompt: integer_overflow_role(language@),
        }),
{
    let mut role = String::from_str(INTEGER_OVERFLOW_OPENING);
    role.append(language);
    role.append(INTEGER_OVERFLOW_MIDDLE);
    role.append(language);
    role.append(INTEGER_OVERFLOW_CLOSING);
    AIAgent::new(INTEGER_OVERFLOW_NAME, role)
}

/// The analyzer of access control for contracts in `language`.
pub fn create_access_control_agent(language: &str) -> (agent: AIAgent)
    ensures
        agent@ == (AgentView {
            name: ACCESS_CONTROL_NAME@,
            prompt: access_control_role(language@),
        }),
{
    let mut role = String::from_str(ACCESS_CONTROL_OPENING);
    role.append(language);
    role.append(ACCESS_CONTROL_MIDDLE);
    role.append(language);
    role.append(ACCESS_CONTROL_CLOSING);
    AIAgent::new(ACCESS_CONTROL_NAME, role)
}

/// The analyzer of validation of values for contracts in `language`.
pub fn create_contract_validation_agent(language: &str) -> (agent: AIAgent)
    ensures
        agent@ == (AgentView { name: VALIDATION_NAME@, prompt: validation_role(language@) }),
{
    let mut role = String::from_str(VALIDATION_OPENING);
    role.append(language);
    role.append(VALIDATION_MIDDLE);
    role.append(language);
    role.append(VALIDATION_CLOSING);
    AIAgent::new(VALIDATION_NAME, role)
}

/// The analyzer of events for contracts in `language`.
pub fn create_events_agent(language: &str) -> (agent: AIAgent)
    ensures
        agent@ == (AgentView { name: EVENTS_NAME@, prompt: events_role(language@) }),
{
    let mut role = String::from_str(EVENTS_OPENING);
    role.append(language);
    role.append(EVENTS_MIDDLE);
    role.append(language);
    role.append(EVENTS_CLOSING);
    AIAgent::new(EVENTS_NAME, role)
}

/// The analyzer of gas use for contracts in `language`.
pub fn create_gas_agent(language: &str) -> (agent: AIAgent)
    ensures
        agent@ == (AgentView { name: GAS_NAME@, prompt: gas_role(language@) }),
{
    let mut role = String::from_str(GAS_OPENING);
    role.append(language);
    role.append(GAS_MIDDLE);
    role.append(language);
    role.append(GAS_CLOSING);
    AIAgent::new(GAS_NAME, role)
}

/// The analyzer of contract logic for contracts in `language`.
pub fn create_logic_agent(language: &str) -> (agent: AIAgent)
    ensures
        agent@ == (AgentView { name: LOGIC_NAME@, prompt: logic_role(language@) }),
{
    let mut role = String::from_str(LOGIC_OPENING);
    role.append(language);
    role.append(LOGIC_MIDDLE);
    role.append(language);
    role.append(LOGIC_CLOSING);
    AIAgent::new(LOGIC_NAME, role)
}

/// The analyzer of security in general for contracts in `language`.
pub fn create_general_security_agent(language: &str) -> (agent: AIAgent)
    ensures
        agent@ == (AgentView {
            name: GENERAL_SECURITY_NAME@,
            prompt: general_security_role(language@),
        }),
{
    let mut role = String::from_str(GENERAL_SECURITY_OPENING);
    role.append(language);
    role.append(GENERAL_SECURITY_CLOSING);
    AIAgent::new(GENERAL_SECURITY_NAME, role)
}

} // verus!
