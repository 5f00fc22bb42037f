use crate::agents::deduplication_agent::{
    combined_json, merge_call, merge_prompt, parsed_report, FormatDeduplicationAgent,
};
use crate::agents::multi_agent_system::{
    collected, default_roster, finding_of, findings_of, lemma_collected_is_what_was_found,
    lemma_nothing_found_nothing_collected, planned_tasks, AnalysisTask, MultiAIAgentSystem,
    MultiAIAgentSystemTrait, OutcomeView, TaskOutcome, TaskView,
};
use crate::findings::{distinct_names, texts_of, Entries};
use crate::json::json_text;
use crate::models::report::{decoded_view, MalformedAggregateOutput, VulnerabilityReport};
use crate::models::vulnerability::{json_of_vulnerabilities, VulnerabilityView};
use crate::remote::{outcome_text, ChatCall, ChatCallView, ChatOutcome, OutcomeTextView};
use crate::server::request::{audit_verdict, rejection_message, AuditRequest, AuditRequestView};
use crate::server::response::{answered_id, AuditErrorResponse, AuditResponse, NO_ID};
use crate::vault::stored_form;
use vstd::prelude::*;

verus! {

/// Where an audit stands: what it waits for.
#[derive(Debug, PartialEq, Eq)]
pub enum AuditState {
    /// The units of the fan-out run; the audit waits for all of them.
    Analyzing { model: String, language: String },
    /// The request to merge is under way.
    Merging,
    /// The report is there and is being stored.
    Storing { report: VulnerabilityReport },
    /// The audit has given its answer.
    Done,
}

/// What happened outside since the last step.
#[derive(Debug, PartialEq, Eq)]
pub enum AuditEvent {
    /// Every unit of the fan-out has ended.
    Analyzed(Vec<TaskOutcome>),
    /// The request to merge has ended.
    Merged(ChatOutcome),
    /// The store has been tried: with the id it gave, or without one.
    Stored(Option<String>),
}

/// What is to be done outside next.
#[derive(Debug, PartialEq, Eq)]
pub enum AuditAction {
    /// Run these units side by side, and come back when all have ended.
    Analyze(Vec<AnalysisTask>),
    /// Make this one request.
    Merge(ChatCall),
    /// Try to store the report, which is handed over in this form.
    Store(String),
    /// Answer with the report.
    Respond(AuditResponse),
    /// Turn the request away.
    Reject(AuditErrorResponse),
    /// Give up: the merged answer is no report.
    Abort(MalformedAggregateOutput),
}

/// A state as plain values.
pub ghost enum AuditStateView {
    Analyzing { model: Seq<char>, language: Seq<char> },
    Merging,
    Storing { report: Seq<VulnerabilityView> },
    Done,
}

/// An event as plain values.
pub ghost enum AuditEventView {
    Analyzed(Seq<OutcomeView>),
    Merged(OutcomeTextView),
    Stored(Option<Seq<char>>),
}

/// An action as plain values.
pub ghost enum AuditActionView {
    Analyze(Seq<TaskView>),
    Merge(ChatCallView),
    Store(Seq<char>),
    Respond { report: Seq<VulnerabilityView>, id: Seq<char> },
    Reject(Seq<char>),
    Abort(MalformedAggregateOutput),
}

impl View for AuditState {
    type V = AuditStateView;

    open spec fn view(&self) -> AuditStateView {
        match self {
            AuditState::Analyzing { model, language } => AuditStateView::Analyzing {
                model: model@,
                language: language@,
            },
            AuditState::Merging => AuditStateView::Merging,
            AuditState::Storing { report } => AuditStateView::Storing { report: report@ },
            AuditState::Done => AuditStateView::Done,
        }
    }
}

impl View for AuditEvent {
    type V = AuditEventView;

    open spec fn view(&self) -> AuditEventView {
        match self {
            AuditEvent::Analyzed(outcomes) => AuditEventView::Analyzed(outcomes.deep_view()),
            AuditEvent::Merged(outcome) => AuditEventView::Merged(outcome@),
            AuditEvent::Stored(id) => AuditEventView::Stored(id.deep_view()),
        }
    }
}

impl View for AuditAction {
    type V = AuditActionView;

    open spec fn view(&self) -> AuditActionView {
        match self {
            AuditAction::Analyze(tasks) => AuditActionView::Analyze(tasks.deep_view()),
            AuditAction::Merge(call) => AuditActionView::Merge(call@),
            AuditAction::Store(form) => AuditActionView::Store(form@),
            AuditAction::Respond(response) => AuditActionView::Respond {
                report: response.report@,
                id: response._id@,
            },
            AuditAction::Reject(rejected) => AuditActionView::Reject(rejected.error@),
            AuditAction::Abort(malformed) => AuditActionView::Abort(*malformed),
        }
    }
}

impl DeepView for AuditAction {
    type V = AuditActionView;

    open spec fn deep_view(&self) -> AuditActionView {
        self@
    }
}

/// The request by which the outcomes of an audit's units are merged: the
/// request for the texts that the units have left, and none where they have
/// left nothing.
pub open spec fn merge_after(
    outcomes: Seq<OutcomeView>,
    model: Seq<char>,
    language: Seq<char>,
) -> Option<ChatCallView> {
    merge_call(texts_of(collected(outcomes)), model, language)
}

/// The state in which a report is stored, with the action that stores it.
pub open spec fn storing(report: Seq<VulnerabilityView>) -> (AuditStateView, Option<
    AuditActionView,
>) {
    (
        AuditStateView::Storing { report: report },
        Some(AuditActionView::Store(json_text(json_of_vulnerabilities(report)))),
    )
}

/// How an audit begins: a request that fails its check is turned away and
/// the audit is done; any other request is fanned out, one unit for each
/// analyzer of a session for the request's language.
pub open spec fn audit_start(
    request: AuditRequestView,
    models: Seq<Seq<char>>,
    languages: Seq<Seq<char>>,
) -> (AuditStateView, AuditActionView) {
    match audit_verdict(request, models, languages) {
        Some(rejection) => (
            AuditStateView::Done,
            AuditActionView::Reject(rejection_message(rejection)),
        ),
        None => (
            AuditStateView::Analyzing { model: request.model, language: request.language },
            AuditActionView::Analyze(
                planned_tasks(
                    default_roster(request.language),
                    request.contract_code,
                    request.model,
                    request.language,
                ),
            ),
        ),
    }
}

/// How an audit goes on. Once all units have ended, what they found is
/// merged by one request, or, where they found nothing, the report without
/// findings is stored at once. Once the merge has ended, its answer is read
/// and the report is stored, or the audit gives up on an answer that is no
/// report. Once the store has been tried, the audit answers with the
/// report, stored or not. An event that the state does not wait for changes
/// nothing and asks for nothing.
pub open spec fn audit_step(state: AuditStateView, event: AuditEventView) -> (
    AuditStateView,
    Option<AuditActionView>,
) {
    match (state, event) {
        (AuditStateView::Analyzing { model, language }, AuditEventView::Analyzed(outcomes)) => {
            match merge_after(outcomes, model, language) {
                Some(call) => (AuditStateView::Merging, Some(AuditActionView::Merge(call))),
                None => storing(Seq::empty()),
            }
        },
        (AuditStateView::Merging, AuditEventView::Merged(outcome)) => {
            match parsed_report(outcome_text(outcome)) {
                Ok(report) => storing(report),
                Err(malformed) => (
                    AuditStateView::Done,
                    Some(AuditActionView::Abort(malformed)),
                ),
            }
        },
        (AuditStateView::Storing { report }, AuditEventView::Stored(id)) => (
            AuditStateView::Done,
            Some(AuditActionView::Respond { report: report, id: answered_id(id) }),
        ),
        _ => (state, None),
    }
}

/// First step of an audit: the request is checked, and a request that
/// passes is turned into the units of the fan-out, one for each analyzer of
/// a session for the request's language.
pub fn plan_audit(request: &AuditRequest, models: &Vec<String>, languages: &Vec<String>) -> (r:
    Result<Vec<AnalysisTask>, AuditErrorResponse>)
    ensures
        match r {
            Ok(tasks) => {
                &&& audit_verdict(request@, models.deep_view(), languages.deep_view()) is None
                &&& tasks.deep_view() == planned_tasks(
                    default_roster(request.language@),
                    request.contract_code@,
                    request.model@,
                    request.language@,
                )
            },
            Err(rejected) => {
                &&& audit_verdict(request@, models.deep_view(), languages.deep_view()) matches Some(
                    rejection,
                )
                &&& rejected.error@ == rejection_message(rejection)
            },
        },
{
    match request.check(models, languages) {
        Some(rejection) => Err(AuditErrorResponse::rejected(rejection)),
        None => {
            let system = MultiAIAgentSystem::new(request.language.as_str());
            Ok(
                system.analyze_contract(
                    request.contract_code.as_str(),
                    request.model.as_str(),
                    request.language.as_str(),
                ),
            )
        },
    }
}

/// Second step of an audit, once every unit has ended: what the units found
/// is gathered, and the one request that merges it is made. Where no unit
/// found anything there is no request.
pub fn plan_merge(outcomes: &Vec<TaskOutcome>, model: &str, language: &str) -> (call: Option<
    ChatCall,
>)
    ensures
        call.deep_view() == merge_after(outcomes.deep_view(), model@, language@),
{
    let findings = MultiAIAgentSystem::collect(outcomes);
    FormatDeduplicationAgent::new().format_and_deduplicate(findings.values(), model, language)
}

/// Third step of an audit, once the request to merge has ended: its answer
/// is read as a report. A request that brought no text stands for the
/// report without findings.
pub fn read_merged(outcome: ChatOutcome) -> (r: Result<
    VulnerabilityReport,
    MalformedAggregateOutput,
>)
    ensures
        decoded_view(r) == parsed_report(outcome_text(outcome@)),
{
    FormatDeduplicationAgent::process_result(outcome.into_text())
}

impl AuditState {
    /// Begins an audit.
    pub fn start(request: &AuditRequest, models: &Vec<String>, languages: &Vec<String>) -> (r: (
        AuditState,
        AuditAction,
    ))
        ensures
            (r.0@, r.1@) == audit_start(request@, models.deep_view(), languages.deep_view()),
    {
        match plan_audit(request, models, languages) {
            Ok(tasks) => (
                AuditState::Analyzing {
                    model: request.model.clone(),
                    language: request.language.clone(),
                },
                AuditAction::Analyze(tasks),
            ),
            Err(rejected) => (AuditState::Done, AuditAction::Reject(rejected)),
        }
    }

    /// Takes an audit one step on.
    pub fn step(self, event: AuditEvent) -> (r: (AuditState, Option<AuditAction>))
        ensures
            (r.0@, r.1.deep_view()) == audit_step(self@, event@),
    {
        match (self, event) {
            (AuditState::Analyzing { model, language }, AuditEvent::Analyzed(outcomes)) => {
                match plan_merge(&outcomes, model.as_str(), language.as_str()) {
                    Some(call) => (AuditState::Merging, Some(AuditAction::Merge(call))),
                    None => AuditState::store(VulnerabilityReport::new()),
                }
            },
            (AuditState::Merging, AuditEvent::Merged(outcome)) => {
                match read_merged(outcome) {
                    Ok(report) => AuditState::store(report),
                    Err(malformed) => (AuditState::Done, Some(AuditAction::Abort(malformed))),
                }
            },
            (AuditState::Storing { report }, AuditEvent::Stored(id)) => (
                AuditState::Done,
                Some(AuditAction::Respond(AuditResponse::new(report, id))),
            ),
            (state, _) => (state, None),
        }
    }

    /// The state in which `report` is stored, with the action that stores
    /// it.
    fn store(report: VulnerabilityReport) -> (r: (AuditState, Option<AuditAction>))
        ensures
            (r.0@, r.1.deep_view()) == storing(report@),
    {
        let form = stored_form(&report);
        (AuditState::Storing { report }, Some(AuditAction::Store(form)))
    }

    /// Whether the audit has given its answer.
    pub fn is_done(&self) -> (done: bool)
        ensures
            done == (self@ is Done),
    {
        match self {
            AuditState::Done => true,
            _ => false,
        }
    }
}

/// Where every unit of an audit fails, breaks off or comes back without
/// text, the mapping is empty, no request to merge is made, and the report
/// has no findings.
pub proof fn lemma_silent_audit_reports_nothing(
    outcomes: Seq<OutcomeView>,
    model: Seq<char>,
    language: Seq<char>,
)
    requires
        forall|i: int| 0 <= i < outcomes.len() ==> finding_of(#[trigger] outcomes[i]) is None,
    ensures
        collected(outcomes) == Entries::empty(),
        merge_after(outcomes, model, language) is None,
        parsed_report(None) == Ok::<Seq<VulnerabilityView>, MalformedAggregateOutput>(
            Seq::empty(),
        ),
{
    lemma_nothing_found_nothing_collected(outcomes);
}

/// Where some units of an audit end with a finding, under names that differ
/// from one another, one request to merge is made, and what it hands over
/// is exactly the texts of those findings, in the order of the units: none
/// is missing and none is added.
pub proof fn lemma_merge_hands_over_what_was_found(
    outcomes: Seq<OutcomeView>,
    model: Seq<char>,
    language: Seq<char>,
)
    requires
        findings_of(outcomes).len() > 0,
        distinct_names(findings_of(outcomes)),
    ensures
        merge_after(outcomes, model, language) is Some,
        merge_after(outcomes, model, language) == merge_call(
            texts_of(findings_of(outcomes)),
            model,
            language,
        ),
{
    lemma_collected_is_what_was_found(outcomes);
}

/// An audit in which every unit fails, breaks off or comes back without
/// text makes no request to merge: it goes on to store the report without
/// findings.
pub proof fn lemma_silent_audit_stores_empty_report(
    model: Seq<char>,
    language: Seq<char>,
    outcomes: Seq<OutcomeView>,
)
    requires
        forall|i: int| 0 <= i < outcomes.len() ==> finding_of(#[trigger] outcomes[i]) is None,
    ensures
        audit_step(
            AuditStateView::Analyzing { model: model, language: language },
            AuditEventView::Analyzed(outcomes),
        ) == storing(Seq::empty()),
{
    lemma_nothing_found_nothing_collected(outcomes);
}

/// An audit in which some units end with a finding, under names that differ
/// from one another, makes the one request to merge, and that request hands
/// over exactly the texts that were found, in the order of the units.
pub proof fn lemma_audit_merges_what_was_found(
    model: Seq<char>,
    language: Seq<char>,
    outcomes: Seq<OutcomeView>,
)
    requires
        findings_of(outcomes).len() > 0,
        distinct_names(findings_of(outcomes)),
    ensures
        audit_step(
            AuditStateView::Analyzing { model: model, language: language },
            AuditEventView::Analyzed(outcomes),
        ) == (
            AuditStateView::Merging,
            Some(
                AuditActionView::Merge(
                    ChatCallView {
                        model: model,
                        prompt: merge_prompt(
                            language,
                            json_text(combined_json(texts_of(findings_of(outcomes)))),
                        ),
                    },
                ),
            ),
        ),
{
    lemma_collected_is_what_was_found(outcomes);
}

/// No step asks for a second request to merge: a request to merge is made
/// only on leaving `Analyzing`, and no step leads back there from another
/// state.
pub proof fn lemma_audit_merges_at_most_once(state: AuditStateView, event: AuditEventView)
    ensures
        audit_step(state, event).1 matches Some(AuditActionView::Merge(_)) ==> state is Analyzing,
        !(state is Analyzing) ==> !(audit_step(state, event).0 is Analyzing),
{
}

/// A report that could not be stored is answered all the same, whole, and
/// with `NO_ID` in the place of its id.
pub proof fn lemma_failed_store_keeps_report(report: Seq<VulnerabilityView>)
    ensures
        audit_step(AuditStateView::Storing { report: report }, AuditEventView::Stored(None)) == (
            AuditStateView::Done,
            Some(AuditActionView::Respond { report: report, id: NO_ID@ }),
        ),
{
}

} // verus!
