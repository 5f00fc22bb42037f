use crate::json::{json_text, render_value};
use crate::models::vulnerability::{
    json_of_vulnerabilities, vulnerabilities_to_json, Vulnerability, VulnerabilityView,
};
use crate::remote::{ChatCall, ChatCallView};
use vstd::prelude::*;

verus! {

/// The request to fix, up to the language.
pub const FIX_OPENING: &'static str = r#" Analyze the provided "#;

/// The request to fix, between the language and the findings.
pub const FIX_TASK: &'static str = r#" smart contract code and provided its vulnerability list in JSON. 
            Create a fixed version of the contract that addresses all listed vulnerabilities. 
            Fix only vulnerabilities listed in provided JSON. 
            Implement all fixes inline without suggesting alternatives. 
            Make no changes beyond fixing the listed vulnerabilities.

            Here is a list of vulnerabilities in JSON format:

            "#;

/// The request to fix, between the findings and the code.
pub const FIX_SUBJECT: &'static str = r#"
    
            Return only the complete, fixed smart contract code. 
            Ensure the fixed code is fully functional and maintains the original contract's intended behavior.
            If you cannot fix or change the code, then return the original code.
            
            Here is a smart contract code:

            "#;

/// The end of the request to fix.
pub const FIX_CLOSING: &'static str = r#"
            "#;
/// The one-shot repair: it has the listed findings fixed in a contract.
#[derive(Debug, Clone, Copy, PartialEq, Eq)]
pub struct FixingAgent;

/// The whole text of the request to fix `code`, given the findings as a JSON
/// text.
pub open spec fn fix_prompt(language: Seq<char>, findings_json: Seq<char>, code: Seq<char>) -> Seq<
    char,
> {
    FIX_OPENING@ + language + FIX_TASK@ + findings_json + FIX_SUBJECT@ + code + FIX_CLOSING@
}

/// The request by which `findings` are fixed in `code`: none where nothing
/// is to be fixed, and else the one request that lists them all.
pub open spec fn fix_call(
    code: Seq<char>,
    findings: Seq<VulnerabilityView>,
    model: Seq<char>,
    language: Seq<char>,
) -> Option<ChatCallView> {
    if findings.len() == 0 {
        None
    } else {
        Some(
            ChatCallView {
                model: model,
                prompt: fix_prompt(language, json_text(json_of_vulnerabilities(findings)), code),
            },
        )
    }
}

impl FixingAgent {
    /// The request that has `vulnerabilities` fixed in `code`. With nothing
    /// to fix there is no request.
    pub fn fix(code: String, vulnerabilities: Vec<Vulnerability>, model: &str, language: &str) -> (call:
        Option<ChatCall>)
        ensures
            call.deep_view() == fix_call(code@, vulnerabilities.deep_view(), model@, language@),
    {
        if vulnerabilities.len() == 0 {
            return None;
        }
        let listed = render_value(&vulnerabilities_to_json(&vulnerabilities));
        let prompt = FixingAgent::fix_text(language, listed.as_str(), code.as_str());
        Some(ChatCall::new(model, prompt))
    }

    /// The whole text of the request to fix `code`, around the JSON text
    /// that lists the findings.
    pub fn fix_text(language: &str, findings_json: &str, code: &str) -> (prompt: String)
        ensures
            prompt@ == fix_prompt(language@, findings_json@, code@),
    {
        let mut prompt = String::from_str(FIX_OPENING);
        prompt.append(language);
        prompt.append(FIX_TASK);
        prompt.append(findings_json);
        prompt.append(FIX_SUBJECT);
        prompt.append(code);
        prompt.append(FIX_CLOSING);
        prompt
    }
}

} // verus!
