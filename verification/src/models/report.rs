use crate::json::{json_field, json_of, json_parse, parse_value, value_field, value_items, Json};
use crate::models::vulnerability::{
    vulnerabilities_from_json, vulnerabilities_of_json, vulnerability_of_json, Vulnerability,
    VulnerabilityView,
};
use vstd::prelude::*;

verus! {

/// The findings of one audit, in the order in which they were reported.
#[derive(Debug, Clone, PartialEq, Eq)]
pub struct VulnerabilityReport {
    pub vulnerabilities: Vec<Vulnerability>,
}

impl View for VulnerabilityReport {
    type V = Seq<VulnerabilityView>;

    open spec fn view(&self) -> Seq<VulnerabilityView> {
        self.vulnerabilities.deep_view()
    }
}

/// Why a merged answer is no report.
#[derive(Debug, Clone, Copy, PartialEq, Eq, Structural)]
pub enum MalformedAggregateOutput {
    /// The text is no JSON document.
    InvalidJson,
    /// The document is no object with a member `vulnerabilities`.
    MissingVulnerabilities,
    /// The member `vulnerabilities` is no array.
    VulnerabilitiesNotArray,
    /// The element at `index` of the array is no finding, and each one
    /// before it is.
    MalformedEntry { index: usize },
}

/// The report that a JSON document denotes, or why it denotes none.
pub open spec fn report_of_json(doc: Json) -> Result<
    Seq<VulnerabilityView>,
    MalformedAggregateOutput,
> {
    match json_field(doc, "vulnerabilities"@) {
        None => Err(MalformedAggregateOutput::MissingVulnerabilities),
        Some(Json::Array(items)) => match vulnerabilities_of_json(items) {
            Ok(found) => Ok(found),
            Err(at) => Err(MalformedAggregateOutput::MalformedEntry { index: at as usize }),
        },
        Some(_) => Err(MalformedAggregateOutput::VulnerabilitiesNotArray),
    }
}

/// The report that a text denotes, or why it denotes none.
pub open spec fn report_of_text(text: Seq<char>) -> Result<
    Seq<VulnerabilityView>,
    MalformedAggregateOutput,
> {
    match json_parse(text) {
        None => Err(MalformedAggregateOutput::InvalidJson),
        Some(doc) => report_of_json(doc),
    }
}

/// A decoding result with the report taken by its view.
pub open spec fn decoded_view(
    r: Result<VulnerabilityReport, MalformedAggregateOutput>,
) -> Result<Seq<VulnerabilityView>, MalformedAggregateOutput> {
    match r {
        Ok(report) => Ok(report@),
        Err(e) => Err(e),
    }
}

impl VulnerabilityReport {
    /// The report without findings.
    pub fn new() -> (report: VulnerabilityReport)
        ensures
            report@ == Seq::<VulnerabilityView>::empty(),
    {
        let report = VulnerabilityReport { vulnerabilities: Vec::new() };
        report
    }

    /// Reads a report from a JSON value.
    pub fn from_json(value: &serde_json::Value) -> (r: Result<
        VulnerabilityReport,
        MalformedAggregateOutput,
    >)
        ensures
            decoded_view(r) == report_of_json(json_of(*value)),
    {
        match value_field(value, "vulnerabilities") {
            None => Err(MalformedAggregateOutput::MissingVulnerabilities),
            Some(member) => match value_items(member) {
                None => Err(MalformedAggregateOutput::VulnerabilitiesNotArray),
                Some(items) => match vulnerabilities_from_json(items) {
                    Ok(vulnerabilities) => Ok(VulnerabilityReport { vulnerabilities }),
                    Err(index) => Err(MalformedAggregateOutput::MalformedEntry { index }),
                },
            },
        }
    }

    /// Reads a report from a JSON text.
    pub fn from_json_text(text: &str) -> (r: Result<VulnerabilityReport, MalformedAggregateOutput>)
        ensures
            decoded_view(r) == report_of_text(text@),
    {
        match parse_value(text) {
            Ok(value) => VulnerabilityReport::from_json(&value),
            Err(_) => Err(MalformedAggregateOutput::InvalidJson),
        }
    }
}

/// What `vulnerabilities_of_json` gives, element by element: with `Ok`, one
/// finding for each value, the one that the value denotes; with `Err`, the
/// position of the first value that denotes none.
pub proof fn lemma_vulnerabilities_of_json(items: Seq<Json>)
    ensures
        match vulnerabilities_of_json(items) {
            Ok(found) => {
                &&& found.len() == items.len()
                &&& forall|i: int|
                    0 <= i < items.len() ==> vulnerability_of_json(#[trigger] items[i]) == Some(
                        found[i],
                    )
            },
            Err(at) => {
                &&& 0 <= at < items.len()
                &&& vulnerability_of_json(items[at]) is None
                &&& forall|i: int|
                    0 <= i < at ==> vulnerability_of_json(#[trigger] items[i]) is Some
            },
        },
    decreases items.len(),
{
    if items.len() > 0 {
        lemma_vulnerabilities_of_json(items.drop_last());
        match vulnerabilities_of_json(items.drop_last()) {
            Ok(found) => {
                match vulnerability_of_json(items.last()) {
                    Some(v) => {
                        assert forall|i: int| 0 <= i < items.len() implies vulnerability_of_json(
                            #[trigger] items[i],
                        ) == Some(found.push(v)[i]) by {
                            if i < items.len() - 1 {
                                assert(items[i] == items.drop_last()[i]);
                            }
                        }
                    },
                    None => {
                        assert forall|i: int|
                            0 <= i < items.len() - 1 implies vulnerability_of_json(
                            #[trigger] items[i],
                        ) is Some by {
                            assert(items[i] == items.drop_last()[i]);
                        }
                    },
                }
            },
            Err(at) => {
                assert forall|i: int| 0 <= i < at implies vulnerability_of_json(
                    #[trigger] items[i],
                ) is Some by {
                    assert(items[i] == items.drop_last()[i]);
                }
            },
        }
    }
}

} // verus!
