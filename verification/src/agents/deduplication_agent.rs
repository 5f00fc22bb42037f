use crate::json::{
    array_value, json_of, json_text, jsons, members, object_value, render_value, text_value, Json,
};
use crate::models::report::{
    decoded_view, report_of_text, MalformedAggregateOutput, VulnerabilityReport,
};
use crate::models::vulnerability::VulnerabilityView;
use crate::remote::{ChatCall, ChatCallView};
use crate::text::{
    ends_with_from, lemma_trimmed_ignores_blank_surroundings, is_blank, occurs_at, to_chars,
    trim_bounds, trimmed, without_prefix, without_suffix,
};
use vstd::prelude::*;

verus! {

/// The marker that opens a fenced answer.
pub const FENCE_OPENING: &'static str = "```json";

/// The marker that closes a fenced answer.
pub const FENCE_CLOSING: &'static str = "```";

/// The name under which the findings are handed over for merging.
pub const MERGE_KEY: &'static str = "All";

/// The request to merge, up to the language.
pub const MERGE_OPENING: &'static str = r#"Here is a list of "#;

/// The request to merge, between the language and the findings.
pub const MERGE_TASK: &'static str = r#" smart contract vulnerabilities. Some may be duplicates with slightly different wording.
            Please analyze and combine duplicate entries, keeping the most detailed and relevant description and recommendations.
            Return the deduplicated list in the same JSON format.

            "#;

/// What stands between the findings and the shape of the answer.
pub const MERGE_SPACING: &'static str = r#"
    
            "#;

/// The shape that the merged answer has to have.
pub const MERGE_SHAPE: &'static str = "
        Make sure that the output JSON list adhere to this format:
        {
            \"vulnerabilities\": [
                {
                    \"name\": \"vulnerability name\",
                    \"severity\": \"critical/high/medium/low\",
                    \"description\": \"detailed description\",
                    \"location\": \"function or line reference\",
                    \"impacted_code\": \"impacted code block\",
                    \"recommendations\": \"how to fix\"
                }
            ]
        }
        ";

/// The end of the request to merge.
pub const MERGE_CLOSING: &'static str = r#"

            Return only the JSON, no additional text."#;
/// The second stage of an audit: it has the findings of all analyzers merged
/// into one list, and reads the merged answer as a report.
#[derive(Debug, Clone, Copy, PartialEq, Eq)]
pub struct FormatDeduplicationAgent;

/// The document in which the findings are handed over: one object whose one
/// member holds them, each as it came, in order.
pub open spec fn combined_json(findings: Seq<Seq<char>>) -> Json {
    Json::Object(
        seq![(MERGE_KEY@, Json::Array(Seq::new(findings.len(), |i: int| Json::Text(findings[i]))))],
    )
}

/// The whole text of the request to merge the findings that `combined`
/// lists.
pub open spec fn merge_prompt(language: Seq<char>, combined: Seq<char>) -> Seq<char> {
    MERGE_OPENING@ + language + MERGE_TASK@ + combined + MERGE_SPACING@ + MERGE_SHAPE@
        + MERGE_CLOSING@
}

/// The request by which `findings` are merged: none where there is nothing
/// to merge, and else the one request that carries them all.
pub open spec fn merge_call(
    findings: Seq<Seq<char>>,
    model: Seq<char>,
    language: Seq<char>,
) -> Option<ChatCallView> {
    if findings.len() == 0 {
        None
    } else {
        Some(
            ChatCallView {
                model: model,
                prompt: merge_prompt(language, json_text(combined_json(findings))),
            },
        )
    }
}

/// What an answer holds between its fence markers: the answer without one
/// opening marker at its start and one closing marker at its end, where it
/// has them, and without the whitespace around what is left.
pub open spec fn fenced_body(raw: Seq<char>) -> Seq<char> {
    trimmed(without_suffix(without_prefix(raw, FENCE_OPENING@), FENCE_CLOSING@))
}

/// The report that a merged answer denotes. No answer stands for the report
/// without findings.
pub open spec fn parsed_report(raw: Option<Seq<char>>) -> Result<
    Seq<VulnerabilityView>,
    MalformedAggregateOutput,
> {
    match raw {
        None => Ok(Seq::empty()),
        Some(text) => report_of_text(fenced_body(text)),
    }
}

impl FormatDeduplicationAgent {
    /// The second stage; it holds nothing of its own.
    pub fn new() -> (agent: FormatDeduplicationAgent) {
        FormatDeduplicationAgent {  }
    }

    /// The request that has `vulnerabilities` merged into one list without
    /// duplicates. With nothing to merge there is no request.
    pub fn format_and_deduplicate(
        &self,
        vulnerabilities: Vec<&String>,
        model: &str,
        language: &str,
    ) -> (call: Option<ChatCall>)
        ensures
            call.deep_view() == merge_call(vulnerabilities.deep_view(), model@, language@),
    {
        if vulnerabilities.len() == 0 {
            return None;
        }
        let mut items: Vec<serde_json::Value> = Vec::new();
        let mut i: usize = 0;
        while i < vulnerabilities.len()
            invariant
                i <= vulnerabilities.len(),
                items.len() == i,
                forall|k: int|
                    0 <= k < i ==> json_of(#[trigger] items@[k]) == Json::Text(
                        vulnerabilities@[k]@,
                    ),
            decreases vulnerabilities.len() - i,
        {
            items.push(text_value(vulnerabilities[i].clone()));
            i += 1;
        }
        let ghost listed = jsons(items@);
        let list = array_value(items);
        let mut entries: Vec<(String, serde_json::Value)> = Vec::new();
        entries.push((String::from_str(MERGE_KEY), list));
        let combined = object_value(entries);
        proof {
            let findings = vulnerabilities.deep_view();
            assert(listed =~= Seq::new(findings.len(), |i: int| Json::Text(findings[i])));
            assert(members(entries@) =~= combined_json(findings)->Object_0);
        }
        let prompt = FormatDeduplicationAgent::merge_text(
            language,
            render_value(&combined).as_str(),
        );
        Some(ChatCall::new(model, prompt))
    }

    /// The whole text of the request to merge, around the document that
    /// lists the findings.
    pub fn merge_text(language: &str, combined: &str) -> (prompt: String)
        ensures
            prompt@ == merge_prompt(language@, combined@),
    {
        let mut prompt = String::from_str(MERGE_OPENING);
        prompt.append(language);
        prompt.append(MERGE_TASK);
        prompt.append(combined);
        prompt.append(MERGE_SPACING);
        prompt.append(MERGE_SHAPE);
        prompt.append(MERGE_CLOSING);
        prompt
    }

    /// The part of `input` between its fence markers.
    pub fn trim_json(input: &str) -> (body: &str)
        ensures
            body@ == fenced_body(input@),
    {
        let chars = to_chars(input);
        let opening = to_chars(FENCE_OPENING);
        let closing = to_chars(FENCE_CLOSING);
        let from: usize = if occurs_at(&chars, 0, &opening) {
            opening.len()
        } else {
            0
        };
        let to: usize = if ends_with_from(&chars, from, &closing) {
            chars.len() - closing.len()
        } else {
            chars.len()
        };
        assert(chars@.subrange(from as int, to as int) =~= without_suffix(
            without_prefix(input@, FENCE_OPENING@),
            FENCE_CLOSING@,
        ));
        let bounds = trim_bounds(&chars, from, to);
        input.substring_char(bounds.0, bounds.1)
    }

    /// Reads a merged answer as a report. No answer gives the report without
    /// findings; an answer that is no report of the expected shape gives
    /// the reason.
    pub fn process_result(json_dedup: Option<String>) -> (r: Result<
        VulnerabilityReport,
        MalformedAggregateOutput,
    >)
        ensures
            decoded_view(r) == parsed_report(json_dedup.deep_view()),
    {
        match json_dedup {
            Some(text) => {
                let body = FormatDeduplicationAgent::trim_json(text.as_str());
                VulnerabilityReport::from_json_text(body)
            },
            None => Ok(VulnerabilityReport::new()),
        }
    }
}

/// An answer that is put between the fence markers, with any whitespace
/// between the markers and the answer, is read as the bare answer is. This
/// holds of an answer that neither begins with the opening marker nor ends
/// with the closing one.
pub proof fn lemma_fenced_answer_reads_alike(answer: Seq<char>, lead: Seq<char>, trail: Seq<char>)
    requires
        is_blank(lead),
        is_blank(trail),
        !FENCE_OPENING@.is_prefix_of(answer),
        !FENCE_CLOSING@.is_suffix_of(answer),
    ensures
        fenced_body(FENCE_OPENING@ + lead + answer + trail + FENCE_CLOSING@) == fenced_body(answer),
        parsed_report(Some(FENCE_OPENING@ + lead + answer + trail + FENCE_CLOSING@))
            == parsed_report(Some(answer)),
{
    let inner = lead + answer + trail;
    let wrapped = FENCE_OPENING@ + lead + answer + trail + FENCE_CLOSING@;
    assert(without_prefix(wrapped, FENCE_OPENING@) =~= inner + FENCE_CLOSING@);
    let opened = inner + FENCE_CLOSING@;
    assert(without_suffix(opened, FENCE_CLOSING@) =~= inner);
    lemma_trimmed_ignores_blank_surroundings(lead, answer, trail);
}

} // verus!
