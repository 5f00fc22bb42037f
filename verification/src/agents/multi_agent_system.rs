use crate::agents::ai_agent::{analysis_prompt, AIAgent, AgentView};
use crate::agents::specialized_auditors::{
    access_control_role, create_access_control_agent, create_contract_validation_agent,
    create_events_agent, create_gas_agent, create_general_security_agent,
    create_integer_overflow_agent, create_logic_agent, create_reentrancy_agent, events_role,
    gas_role, general_security_role, integer_overflow_role, logic_role, reentrancy_role,
    validation_role, ACCESS_CONTROL_NAME, EVENTS_NAME, GAS_NAME, GENERAL_SECURITY_NAME,
    INTEGER_OVERFLOW_NAME, LOGIC_NAME, REENTRANCY_NAME, VALIDATION_NAME,
};
use crate::findings::{
    distinct_names, has_name, lemma_first_named_is, lemma_upserted_distinct,
    lemma_upserted_has_name, upserted, Entries, RawFindings,
};
use crate::remote::{outcome_text, ChatCall, ChatCallView, ChatOutcome};
use vstd::prelude::*;

verus! {

/// One unit of the fan-out: the request of one analyzer, under the
/// analyzer's name.
#[derive(Debug, Clone, PartialEq, Eq)]
pub struct AnalysisTask {
    pub agent_name: String,
    pub call: ChatCall,
}

/// A unit of the fan-out as plain values.
pub ghost struct TaskView {
    pub agent_name: Seq<char>,
    pub call: ChatCallView,
}

impl View for AnalysisTask {
    type V = TaskView;

    open spec fn view(&self) -> TaskView {
        TaskView { agent_name: self.agent_name@, call: self.call@ }
    }
}

impl DeepView for AnalysisTask {
    type V = TaskView;

    open spec fn deep_view(&self) -> TaskView {
        self@
    }
}

/// How one unit of the fan-out ended.
#[derive(Debug, Clone, PartialEq, Eq)]
pub enum TaskOutcome {
    /// The unit ran to its end, with a finding under its analyzer's name or
    /// without one.
    Completed(Option<(String, String)>),
    /// The unit broke off before it had a result.
    Crashed,
}

/// The outcome of a unit as plain values.
pub type OutcomeView = Option<Option<(Seq<char>, Seq<char>)>>;

impl View for TaskOutcome {
    type V = OutcomeView;

    open spec fn view(&self) -> OutcomeView {
        match self {
            TaskOutcome::Completed(finding) => Some(finding.deep_view()),
            TaskOutcome::Crashed => None,
        }
    }
}

impl DeepView for TaskOutcome {
    type V = OutcomeView;

    open spec fn deep_view(&self) -> OutcomeView {
        self@
    }
}

/// The finding that an outcome brings, if it brings one.
pub open spec fn finding_of(outcome: OutcomeView) -> Option<(Seq<char>, Seq<char>)> {
    match outcome {
        Some(Some(finding)) => Some(finding),
        _ => None,
    }
}

/// Whether an outcome brings a finding under `name`.
pub open spec fn brings(outcome: OutcomeView, name: Seq<char>) -> bool {
    match finding_of(outcome) {
        Some(finding) => finding.0 == name,
        None => false,
    }
}

/// The mapping that the outcomes leave, taken in order: each finding goes
/// under its name, where a later one replaces an earlier one; an outcome
/// without a finding leaves the mapping as it is.
pub open spec fn collected(outcomes: Seq<OutcomeView>) -> Entries
    decreases outcomes.len(),
{
    if outcomes.len() == 0 {
        Entries::empty()
    } else {
        let before = collected(outcomes.drop_last());
        match finding_of(outcomes.last()) {
            Some(finding) => upserted(before, finding.0, finding.1),
            None => before,
        }
    }
}

/// The findings that the outcomes bring, in order.
pub open spec fn findings_of(outcomes: Seq<OutcomeView>) -> Entries
    decreases outcomes.len(),
{
    if outcomes.len() == 0 {
        Entries::empty()
    } else {
        let before = findings_of(outcomes.drop_last());
        match finding_of(outcomes.last()) {
            Some(finding) => before.push(finding),
            None => before,
        }
    }
}

/// The analyzers of a session that audits contracts in `language`.
pub open spec fn default_roster(language: Seq<char>) -> Seq<AgentView> {
    seq![
        AgentView { name: REENTRANCY_NAME@, prompt: reentrancy_role(language) },
        AgentView { name: INTEGER_OVERFLOW_NAME@, prompt: integer_overflow_role(language) },
        AgentView { name: ACCESS_CONTROL_NAME@, prompt: access_control_role(language) },
        AgentView { name: EVENTS_NAME@, prompt: events_role(language) },
        AgentView { name: VALIDATION_NAME@, prompt: validation_role(language) },
        AgentView { name: GAS_NAME@, prompt: gas_role(language) },
        AgentView { name: LOGIC_NAME@, prompt: logic_role(language) },
        AgentView { name: GENERAL_SECURITY_NAME@, prompt: general_security_role(language) },
    ]
}

/// The units of one audit: one for each analyzer of `roster`, in order, each
/// with that analyzer's request for `code`.
pub open spec fn planned_tasks(
    roster: Seq<AgentView>,
    code: Seq<char>,
    model: Seq<char>,
    language: Seq<char>,
) -> Seq<TaskView> {
    Seq::new(
        roster.len(),
        |i: int|
            TaskView {
                agent_name: roster[i].name,
                call: ChatCallView {
                    model: model,
                    prompt: analysis_prompt(roster[i].prompt, language, code),
                },
            },
    )
}

impl AnalysisTask {
    /// What this unit has found once its request has ended with `outcome`:
    /// the text of the answer under the analyzer's name, and nothing where
    /// the outcome yields no text.
    pub fn finish(&self, outcome: ChatOutcome) -> (finding: Option<(String, String)>)
        ensures
            finding.deep_view() == match outcome_text(outcome@) {
                Some(text) => Some((self.agent_name@, text)),
                None => None,
            },
    {
        match outcome.into_text() {
            Some(text) => Some((self.agent_name.clone(), text)),
            None => None,
        }
    }
}

/// What a session of audits does: it is set up for a language, and it turns
/// one contract into the units of the fan-out.
pub trait MultiAIAgentSystemTrait: Sized {
    /// The analyzers of the session, in order.
    spec fn roster(&self) -> Seq<AgentView>;

    /// The session for contracts in `language`.
    fn new(language: &str) -> (system: Self)
        ensures
            system.roster() == default_roster(language@),
    ;

    /// The units by which `contract_code` is analyzed: one for each
    /// analyzer, none twice, all of them to be run side by side.
    fn analyze_contract(&self, contract_code: &str, model: &str, language: &str) -> (tasks: Vec<
        AnalysisTask,
    >)
        ensures
            tasks.deep_view() == planned_tasks(
                self.roster(),
                contract_code@,
                model@,
                language@,
            ),
    ;
}

/// The analyzers of one session.
#[derive(Debug, Clone, PartialEq, Eq)]
pub struct MultiAIAgentSystem {
    agents: Vec<AIAgent>,
}

impl View for MultiAIAgentSystem {
    type V = Seq<AgentView>;

    closed spec fn view(&self) -> Seq<AgentView> {
        self.agents.deep_view()
    }
}

impl MultiAIAgentSystem {
    /// The session of the given analyzers.
    pub fn with_agents(agents: Vec<AIAgent>) -> (system: MultiAIAgentSystem)
        ensures
            system@ == agents.deep_view(),
    {
        MultiAIAgentSystem { agents }
    }

    /// How many analyzers the session has.
    pub fn agent_count(&self) -> (n: usize)
        ensures
            n == self@.len(),
    {
        self.agents.len()
    }

    /// The fan-in: the mapping that the outcomes of all units leave. Only a
    /// unit that ended with a finding puts an entry in it.
    pub fn collect(outcomes: &Vec<TaskOutcome>) -> (findings: RawFindings)
        ensures
            findings@ == collected(outcomes.deep_view()),
    {
        let mut findings = RawFindings::new();
        let ghost all = outcomes.deep_view();
        let mut i: usize = 0;
        while i < outcomes.len()
            invariant
                i <= outcomes.len(),
                all == outcomes.deep_view(),
                findings@ == collected(all.take(i as int)),
            decreases outcomes.len() - i,
        {
            let ghost upto = all.take(i + 1);
            assert(upto.drop_last() =~= all.take(i as int));
            match &outcomes[i] {
                TaskOutcome::Completed(Some((name, text))) => {
                    findings.insert(name.clone(), text.clone());
                },
                TaskOutcome::Completed(None) => {},
                TaskOutcome::Crashed => {},
            }
            i += 1;
        }
        assert(all.take(i as int) =~= all);
        findings
    }
}

impl MultiAIAgentSystemTrait for MultiAIAgentSystem {
    open spec fn roster(&self) -> Seq<AgentView> {
        self@
    }

    fn new(language: &str) -> (system: MultiAIAgentSystem) {
        let mut agents: Vec<AIAgent> = Vec::new();
        agents.push(create_reentrancy_agent(language));
        agents.push(create_integer_overflow_agent(language));
        agents.push(create_access_control_agent(language));
        agents.push(create_events_agent(language));
        agents.push(create_contract_validation_agent(language));
        agents.push(create_gas_agent(language));
        agents.push(create_logic_agent(language));
        agents.push(create_general_security_agent(language));
        MultiAIAgentSystem { agents }
    }

    fn analyze_contract(&self, contract_code: &str, model: &str, language: &str) -> (tasks: Vec<
        AnalysisTask,
    >) {
        let mut tasks: Vec<AnalysisTask> = Vec::new();
        let mut i: usize = 0;
        while i < self.agents.len()
            invariant
                i <= self.agents.len(),
                tasks.len() == i,
                forall|k: int|
                    0 <= k < i ==> (#[trigger] tasks@[k])@ == planned_tasks(
                        self@,
                        contract_code@,
                        model@,
                        language@,
                    )[k],
            decreases self.agents.len() - i,
        {
            let agent = &self.agents[i];
            tasks.push(
                AnalysisTask {
                    agent_name: agent.name.clone(),
                    call: agent.analyze(contract_code, model, language),
                },
            );
            i += 1;
        }
        tasks
    }
}

/// A session has eight analyzers, the analyzer of contract logic seventh
/// among them, and no two of them have one name.
pub proof fn lemma_roster_names_differ(language: Seq<char>)
    ensures
        default_roster(language).len() == 8,
        default_roster(language)[6].name == LOGIC_NAME@,
        forall|i: int, j: int|
            0 <= i < j < default_roster(language).len() ==> (#[trigger] default_roster(
                language,
            )[i]).name != (#[trigger] default_roster(language)[j]).name,
{
    reveal_strlit("Reentrancy Agent");
    reveal_strlit("Integer Overflow Agent");
    reveal_strlit("Access Control Agent");
    reveal_strlit("Events Agent");
    reveal_strlit("Validation Agent");
    reveal_strlit("Gas Agent");
    reveal_strlit("Logic Agent");
    reveal_strlit("General Security Agent");
    assert(EVENTS_NAME@.len() == 12);
    assert(GAS_NAME@.len() == 9);
    assert(LOGIC_NAME@.len() == 11);
    assert(REENTRANCY_NAME@[0] != VALIDATION_NAME@[0]);
    assert(INTEGER_OVERFLOW_NAME@[0] != GENERAL_SECURITY_NAME@[0]);
}

/// Where no unit ends with a finding, the mapping stays empty.
pub proof fn lemma_nothing_found_nothing_collected(outcomes: Seq<OutcomeView>)
    requires
        forall|i: int| 0 <= i < outcomes.len() ==> finding_of(#[trigger] outcomes[i]) is None,
    ensures
        collected(outcomes) == Entries::empty(),
    decreases outcomes.len(),
{
    if outcomes.len() > 0 {
        lemma_nothing_found_nothing_collected(outcomes.drop_last());
    }
}

/// The mapping never holds one name twice.
pub proof fn lemma_collected_names_differ(outcomes: Seq<OutcomeView>)
    ensures
        distinct_names(collected(outcomes)),
    decreases outcomes.len(),
{
    if outcomes.len() > 0 {
        lemma_collected_names_differ(outcomes.drop_last());
        match finding_of(outcomes.last()) {
            Some(finding) => {
                lemma_upserted_distinct(collected(outcomes.drop_last()), finding.0, finding.1);
            },
            None => {},
        }
    }
}

/// Whether some outcome brings a finding under `name`.
pub open spec fn some_brings(outcomes: Seq<OutcomeView>, name: Seq<char>) -> bool {
    exists|i: int| 0 <= i < outcomes.len() && brings(#[trigger] outcomes[i], name)
}

/// A name has an entry in the mapping exactly where some unit ended with a
/// finding under that name: a unit that failed, broke off or came back
/// without text leaves no entry.
pub proof fn lemma_collected_names(outcomes: Seq<OutcomeView>, name: Seq<char>)
    ensures
        has_name(collected(outcomes), name) <==> some_brings(outcomes, name),
    decreases outcomes.len(),
{
    if outcomes.len() > 0 {
        let earlier = outcomes.drop_last();
        let before = collected(earlier);
        lemma_collected_names(earlier, name);
        assert(forall|i: int| 0 <= i < earlier.len() ==> earlier[i] == outcomes[i]);
        match finding_of(outcomes.last()) {
            Some(finding) => {
                lemma_upserted_has_name(before, finding.0, finding.1, name);
            },
            None => {},
        }
    }
}

/// Where the findings come under names that differ from one another, the
/// mapping holds exactly the findings, in the order in which the units are
/// listed: none is missing, none is added.
pub proof fn lemma_collected_is_what_was_found(outcomes: Seq<OutcomeView>)
    requires
        distinct_names(findings_of(outcomes)),
    ensures
        collected(outcomes) == findings_of(outcomes),
    decreases outcomes.len(),
{
    if outcomes.len() > 0 {
        let earlier = outcomes.drop_last();
        let found = findings_of(earlier);
        match finding_of(outcomes.last()) {
            Some(finding) => {
                assert forall|i: int, j: int| 0 <= i < j < found.len() implies (
                #[trigger] found[i]).0 != (#[trigger] found[j]).0 by {
                    assert(found.push(finding)[i] == found[i]);
                    assert(found.push(finding)[j] == found[j]);
                }
                lemma_collected_is_what_was_found(earlier);
                assert forall|k: int| 0 <= k < found.len() implies (#[trigger] found[k]).0
                    != finding.0 by {
                    assert(found.push(finding)[k] == found[k]);
                    assert(found.push(finding)[found.len() as int] == finding);
                }
                lemma_first_named_is(found, finding.0, found.len() as int);
            },
            None => {
                lemma_collected_is_what_was_found(earlier);
            },
        }
    }
}

} // verus!
