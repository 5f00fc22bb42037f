use vstd::prelude::*;

verus! {

/// One request to the remote reasoning service: which model is asked, and
/// the system text it is given.
#[derive(Debug, Clone, PartialEq, Eq)]
pub struct ChatCall {
    pub model: String,
    pub prompt: String,
}

/// A request as plain values.
pub ghost struct ChatCallView {
    pub model: Seq<char>,
    pub prompt: Seq<char>,
}

impl View for ChatCall {
    type V = ChatCallView;

    open spec fn view(&self) -> ChatCallView {
        ChatCallView { model: self.model@, prompt: self.prompt@ }
    }
}

impl DeepView for ChatCall {
    type V = ChatCallView;

    open spec fn deep_view(&self) -> ChatCallView {
        self@
    }
}

/// An outcome as plain values: `None` for a failure, and else what the
/// answer carries.
pub type OutcomeTextView = Option<Option<Seq<char>>>;

/// How one request to the remote service ended.
#[derive(Debug, Clone, PartialEq, Eq)]
pub enum ChatOutcome {
    /// The service answered; the answer may carry no text.
    Answered(Option<String>),
    /// The request did not get through, or the service reported an error.
    Failed,
}

impl View for ChatOutcome {
    type V = OutcomeTextView;

    open spec fn view(&self) -> OutcomeTextView {
        match self {
            ChatOutcome::Answered(text) => Some(text.deep_view()),
            ChatOutcome::Failed => None,
        }
    }
}

impl DeepView for ChatOutcome {
    type V = OutcomeTextView;

    open spec fn deep_view(&self) -> OutcomeTextView {
        self@
    }
}

/// The text that an outcome yields: the text of an answer that carries one,
/// and nothing for an answer without text and for a failure.
pub open spec fn outcome_text(outcome: OutcomeTextView) -> Option<Seq<char>> {
    match outcome {
        Some(Some(text)) => Some(text),
        _ => None,
    }
}

impl ChatCall {
    /// The request that gives `prompt` to `model`.
    pub fn new(model: &str, prompt: String) -> (call: ChatCall)
        ensures
            call@ == (ChatCallView { model: model@, prompt: prompt@ }),
    {
        ChatCall { model: String::from_str(model), prompt }
    }
}

impl ChatOutcome {
    /// The text of this outcome. A failure is no error here: it leaves the
    /// caller without text, as an answer without text does.
    pub fn into_text(self) -> (text: Option<String>)
        ensures
            text.deep_view() == outcome_text(self@),
    {
        match self {
            ChatOutcome::Answered(Some(text)) => Some(text),
            ChatOutcome::Answered(None) => None,
            ChatOutcome::Failed => None,
        }
    }
}

} // verus!
