use crate::json::{json_parse, json_text, parse_value, render_value, value_items, Json};
use crate::models::report::VulnerabilityReport;
use crate::models::vulnerability::{
    json_of_vulnerabilities, vulnerabilities_from_json, vulnerabilities_of_json,
    vulnerabilities_to_json, Vulnerability, VulnerabilityView,
};
use crate::text::{trim, trimmed};
use vstd::prelude::*;

verus! {

/// The findings that the output of a load denotes: those of the JSON array
/// that the output holds between the whitespace around it, and none where
/// it holds no such array.
pub open spec fn findings_of_output(output: Seq<char>) -> Seq<VulnerabilityView> {
    match json_parse(trimmed(output)) {
        Some(Json::Array(items)) => match vulnerabilities_of_json(items) {
            Ok(found) => found,
            Err(_) => Seq::empty(),
        },
        _ => Seq::empty(),
    }
}

/// The form in which a report is handed to the store: its findings as one
/// JSON array.
pub fn stored_form(report: &VulnerabilityReport) -> (text: String)
    ensures
        text@ == json_text(json_of_vulnerabilities(report@)),
{
    render_value(&vulnerabilities_to_json(&report.vulnerabilities))
}

/// The id that the output of the store stands for: the output without the
/// whitespace around it.
pub fn stored_id(output: &str) -> (id: String)
    ensures
        id@ == trimmed(output@),
{
    String::from_str(trim(output))
}

/// Reads the output of a load. An output that is no list of findings
/// counts as an empty list.
pub fn loaded_findings(output: &str) -> (found: Vec<Vulnerability>)
    ensures
        found.deep_view() == findings_of_output(output@),
{
    let nothing: Vec<Vulnerability> = Vec::new();
    match parse_value(trim(output)) {
        Ok(value) => match value_items(&value) {
            Some(items) => match vulnerabilities_from_json(items) {
                Ok(found) => found,
                Err(_) => nothing,
            },
            None => nothing,
        },
        Err(_) => nothing,
    }
}

} // verus!
