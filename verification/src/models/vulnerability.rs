use crate::json::{
    array_value, json_field, json_of, jsons, member_named, members, object_value, text_value,
    value_field, value_text, Json,
};
use crate::models::severity::{
    lemma_severity_round_trip, severity_of_token, severity_token, Severity,
};
use vstd::prelude::*;

verus! {

/// One finding of an audit.
#[derive(Debug, Clone, PartialEq, Eq)]
pub struct Vulnerability {
    pub name: String,
    pub severity: Severity,
    pub description: String,
    pub location: String,
    pub impacted_code: String,
    pub recommendation: String,
}

/// A finding as plain values.
pub ghost struct VulnerabilityView {
    pub name: Seq<char>,
    pub severity: Severity,
    pub description: Seq<char>,
    pub location: Seq<char>,
    pub impacted_code: Seq<char>,
    pub recommendation: Seq<char>,
}

impl View for Vulnerability {
    type V = VulnerabilityView;

    open spec fn view(&self) -> VulnerabilityView {
        VulnerabilityView {
            name: self.name@,
            severity: self.severity,
            description: self.description@,
            location: self.location@,
            impacted_code: self.impacted_code@,
            recommendation: self.recommendation@,
        }
    }
}

impl DeepView for Vulnerability {
    type V = VulnerabilityView;

    open spec fn deep_view(&self) -> VulnerabilityView {
        self@
    }
}

/// The text that an object holds under `key`; `None` where it holds no
/// member of that name or one that is no string.
pub open spec fn text_field(doc: Json, key: Seq<char>) -> Option<Seq<char>> {
    match json_field(doc, key) {
        Some(Json::Text(text)) => Some(text),
        _ => None,
    }
}

/// The finding that a JSON object denotes. Each of the six members has to be
/// there as a string; members of other names are passed over.
pub open spec fn vulnerability_of_json(doc: Json) -> Option<VulnerabilityView> {
    if text_field(doc, "name"@) is Some && text_field(doc, "severity"@) is Some && text_field(
        doc,
        "description"@,
    ) is Some && text_field(doc, "location"@) is Some && text_field(doc, "impacted_code"@) is Some
        && text_field(doc, "recommendations"@) is Some {
        Some(
            VulnerabilityView {
                name: text_field(doc, "name"@)->0,
                severity: severity_of_token(text_field(doc, "severity"@)->0),
                description: text_field(doc, "description"@)->0,
                location: text_field(doc, "location"@)->0,
                impacted_code: text_field(doc, "impacted_code"@)->0,
                recommendation: text_field(doc, "recommendations"@)->0,
            },
        )
    } else {
        None
    }
}

/// The JSON object that stands for a finding.
pub open spec fn json_of_vulnerability(v: VulnerabilityView) -> Json {
    Json::Object(
        seq![
            ("name"@, Json::Text(v.name)),
            ("severity"@, Json::Text(severity_token(v.severity))),
            ("description"@, Json::Text(v.description)),
            ("location"@, Json::Text(v.location)),
            ("impacted_code"@, Json::Text(v.impacted_code)),
            ("recommendations"@, Json::Text(v.recommendation)),
        ],
    )
}

/// The findings that a sequence of JSON values denotes, in order: `Err` with
/// the position of the first value that denotes none.
pub open spec fn vulnerabilities_of_json(items: Seq<Json>) -> Result<Seq<VulnerabilityView>, int>
    decreases items.len(),
{
    if items.len() == 0 {
        Ok(Seq::empty())
    } else {
        match vulnerabilities_of_json(items.drop_last()) {
            Err(at) => Err(at),
            Ok(found) => match vulnerability_of_json(items.last()) {
                Some(v) => Ok(found.push(v)),
                None => Err(items.len() - 1),
            },
        }
    }
}

/// The JSON array that stands for a sequence of findings.
pub open spec fn json_of_vulnerabilities(vs: Seq<VulnerabilityView>) -> Json {
    Json::Array(Seq::new(vs.len(), |i: int| json_of_vulnerability(vs[i])))
}

/// The member of `value` under `key` as an owned text.
fn owned_text_field(value: &serde_json::Value, key: &str) -> (r: Option<String>)
    ensures
        r.deep_view() == text_field(json_of(*value), key@),
{
    match value_field(value, key) {
        Some(member) => match value_text(member) {
            Some(text) => Some(String::from_str(text)),
            None => None,
        },
        None => None,
    }
}

/// One member of an object under construction.
fn text_member(key: &str, text: &str) -> (r: (String, serde_json::Value))
    ensures
        r.0@ == key@,
        json_of(r.1) == Json::Text(text@),
{
    (String::from_str(key), text_value(String::from_str(text)))
}

impl Vulnerability {
    /// Reads a finding from a JSON value.
    pub fn from_json(value: &serde_json::Value) -> (r: Option<Vulnerability>)
        ensures
            r.deep_view() == vulnerability_of_json(json_of(*value)),
    {
        let name = owned_text_field(value, "name");
        let severity = owned_text_field(value, "severity");
        let description = owned_text_field(value, "description");
        let location = owned_text_field(value, "location");
        let impacted_code = owned_text_field(value, "impacted_code");
        let recommendation = owned_text_field(value, "recommendations");
        match (name, severity, description, location, impacted_code, recommendation) {
            (
                Some(name),
                Some(severity),
                Some(description),
                Some(location),
                Some(impacted_code),
                Some(recommendation),
            ) => Some(
                Vulnerability {
                    name,
                    severity: Severity::from(severity.as_str()),
                    description,
                    location,
                    impacted_code,
                    recommendation,
                },
            ),
            _ => None,
        }
    }

    /// Writes this finding as a JSON value.
    pub fn to_json(&self) -> (r: serde_json::Value)
        ensures
            json_of(r) == json_of_vulnerability(self@),
    {
        let mut entries: Vec<(String, serde_json::Value)> = Vec::new();
        entries.push(text_member("name", self.name.as_str()));
        entries.push(text_member("severity", self.severity.as_str()));
        entries.push(text_member("description", self.description.as_str()));
        entries.push(text_member("location", self.location.as_str()));
        entries.push(text_member("impacted_code", self.impacted_code.as_str()));
        entries.push(text_member("recommendations", self.recommendation.as_str()));
        proof {
            lemma_member_names_differ();
        }
        let r = object_value(entries);
        assert(members(entries@) =~= json_of_vulnerability(self@)->Object_0);
        r
    }
}

/// Reads findings from JSON values, in order, and stops at the first value
/// that denotes none.
pub fn vulnerabilities_from_json(items: &Vec<serde_json::Value>) -> (r: Result<
    Vec<Vulnerability>,
    usize,
>)
    ensures
        match r {
            Ok(found) => vulnerabilities_of_json(jsons(items@)) == Ok::<_, int>(found.deep_view()),
            Err(at) => vulnerabilities_of_json(jsons(items@)) == Err::<Seq<VulnerabilityView>, _>(
                at as int,
            ),
        },
{
    let mut found: Vec<Vulnerability> = Vec::new();
    let mut i: usize = 0;
    assert(found.deep_view() =~= Seq::empty());
    while i < items.len()
        invariant
            i <= items.len(),
            vulnerabilities_of_json(jsons(items@).take(i as int)) == Ok::<_, int>(
                found.deep_view(),
            ),
        decreases items.len() - i,
    {
        let ghost upto = jsons(items@).take(i + 1);
        assert(upto.drop_last() =~= jsons(items@).take(i as int));
        match Vulnerability::from_json(&items[i]) {
            Some(v) => {
                let ghost before = found.deep_view();
                found.push(v);
                assert(found.deep_view() =~= before.push(v@));
            },
            None => {
                proof {
                    lemma_first_failure_stays(jsons(items@), i + 1);
                }
                return Err(i);
            },
        }
        i += 1;
    }
    assert(jsons(items@).take(i as int) =~= jsons(items@));
    Ok(found)
}

/// Writes findings as one JSON array.
pub fn vulnerabilities_to_json(vs: &Vec<Vulnerability>) -> (r: serde_json::Value)
    ensures
        json_of(r) == json_of_vulnerabilities(vs.deep_view()),
{
    let mut items: Vec<serde_json::Value> = Vec::new();
    let mut i: usize = 0;
    while i < vs.len()
        invariant
            i <= vs.len(),
            items.len() == i,
            forall|k: int|
                0 <= k < i ==> json_of(#[trigger] items@[k]) == json_of_vulnerability(vs@[k]@),
        decreases vs.len() - i,
    {
        items.push(vs[i].to_json());
        i += 1;
    }
    let r = array_value(items);
    assert(jsons(items@) =~= json_of_vulnerabilities(vs.deep_view())->Array_0);
    r
}

/// The six member names of a finding differ from one another.
proof fn lemma_member_names_differ()
    ensures
        "name"@ != "severity"@,
        "name"@ != "description"@,
        "name"@ != "location"@,
        "name"@ != "impacted_code"@,
        "name"@ != "recommendations"@,
        "severity"@ != "description"@,
        "severity"@ != "location"@,
        "severity"@ != "impacted_code"@,
        "severity"@ != "recommendations"@,
        "description"@ != "location"@,
        "description"@ != "impacted_code"@,
        "description"@ != "recommendations"@,
        "location"@ != "impacted_code"@,
        "location"@ != "recommendations"@,
        "impacted_code"@ != "recommendations"@,
{
    reveal_strlit("name");
    reveal_strlit("severity");
    reveal_strlit("description");
    reveal_strlit("location");
    reveal_strlit("impacted_code");
    reveal_strlit("recommendations");
    assert("description"@.len() == 11);
    assert("impacted_code"@.len() == 13);
    assert("recommendations"@.len() == 15);
    assert("severity"@[0] != "location"@[0]);
}

/// Once a prefix of `items` fails at some position, so does all of `items`,
/// at that position.
proof fn lemma_first_failure_stays(items: Seq<Json>, upto: int)
    requires
        0 <= upto <= items.len(),
        vulnerabilities_of_json(items.take(upto)) is Err,
    ensures
        vulnerabilities_of_json(items) == vulnerabilities_of_json(items.take(upto)),
    decreases items.len() - upto,
{
    if upto < items.len() {
        assert(items.take(upto + 1).drop_last() =~= items.take(upto));
        lemma_first_failure_stays(items, upto + 1);
    } else {
        assert(items.take(upto) =~= items);
    }
}

/// A finding that is written as JSON is read back as it was.
pub proof fn lemma_vulnerability_round_trip(v: VulnerabilityView)
    ensures
        vulnerability_of_json(json_of_vulnerability(v)) == Some(v),
{
    lemma_member_names_differ();
    lemma_severity_round_trip(v.severity);
    reveal_with_fuel(member_named, 7);
}

} // verus!
