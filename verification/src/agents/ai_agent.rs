use crate::remote::{ChatCall, ChatCallView};
use vstd::prelude::*;

verus! {

/// The instruction on the shape of an answer, up to the language it names.
pub const OUTPUT_SCHEMA: &'static str = r#"Return your findings in the following JSON format:
            {
                "vulnerabilities": [
                    {
                        "name": "vulnerability name",
                        "severity": "critical/high/medium/low",
                        "description": "detailed description",
                        "location": "function or line reference",
                        "impacted_code": "impacted code block",
                        "recommendations": "how to fix"
                    }
                ]
            }
            If no vulnerabilities are found, return an empty array.
            If the input is invalid "#;

/// The end of the instruction on the shape of an answer.
pub const OUTPUT_SCHEMA_CLOSING: &'static str = r#" code, the output should be a JSON object with an error message."#;

/// What stands between the instruction on the shape of an answer and the language.
pub const ANALYSIS_REQUEST: &'static str = " \n\nAnalyze this ";

/// What stands between the language and the code.
pub const ANALYSIS_SUBJECT: &'static str = " code for vulnerabilities:\n\n";

/// What stands between the role of an analyzer and the instruction on the
/// shape of an answer.
pub const ROLE_SEPARATOR: &'static str = " ";

/// One specialization of the audit: a name, and the role that the remote
/// service is asked to take.
#[derive(Debug, Clone, PartialEq, Eq)]
pub struct AIAgent {
    pub name: String,
    pub prompt: String,
}

/// An analyzer as plain values.
pub ghost struct AgentView {
    pub name: Seq<char>,
    pub prompt: Seq<char>,
}

impl View for AIAgent {
    type V = AgentView;

    open spec fn view(&self) -> AgentView {
        AgentView { name: self.name@, prompt: self.prompt@ }
    }
}

impl DeepView for AIAgent {
    type V = AgentView;

    open spec fn deep_view(&self) -> AgentView {
        self@
    }
}

/// The instruction on the shape of an answer, for contracts in `language`.
pub open spec fn output_prompt(language: Seq<char>) -> Seq<char> {
    OUTPUT_SCHEMA@ + language + OUTPUT_SCHEMA_CLOSING@
}

/// The whole text of one analysis: the role, the instruction on the shape of
/// the answer, and the code under audit, word for word.
pub open spec fn analysis_prompt(role: Seq<char>, language: Seq<char>, code: Seq<char>) -> Seq<
    char,
> {
    role + ROLE_SEPARATOR@ + output_prompt(language) + ANALYSIS_REQUEST@ + language
        + ANALYSIS_SUBJECT@ + code
}

impl AIAgent {
    /// The analyzer called `name` with the role `prompt`.
    pub fn new(name: &str, prompt: String) -> (agent: AIAgent)
        ensures
            agent@ == (AgentView { name: name@, prompt: prompt@ }),
    {
        AIAgent { name: String::from_str(name), prompt }
    }

    /// The instruction on the shape of an answer, for contracts in
    /// `language`.
    pub fn get_output_prompt(&self, language: &str) -> (text: String)
        ensures
            text@ == output_prompt(language@),
    {
        let mut text = String::from_str(OUTPUT_SCHEMA);
        text.append(language);
        text.append(OUTPUT_SCHEMA_CLOSING);
        text
    }

    /// The one request by which this analyzer has `contract_code` analyzed:
    /// it goes to `model` and carries the analysis text of this analyzer's
    /// role. Whatever the service answers is taken as it comes; nothing here
    /// reads it.
    pub fn analyze(&self, contract_code: &str, model: &str, language: &str) -> (call: ChatCall)
        ensures
            call@ == (ChatCallView {
                model: model@,
                prompt: analysis_prompt(self.prompt@, language@, contract_code@),
            }),
    {
        let mut prompt = self.prompt.clone();
        prompt.append(ROLE_SEPARATOR);
        prompt.append(self.get_output_prompt(language).as_str());
        prompt.append(ANALYSIS_REQUEST);
        prompt.append(language);
        prompt.append(ANALYSIS_SUBJECT);
        prompt.append(contract_code);
        ChatCall::new(model, prompt)
    }
}

} // verus!
