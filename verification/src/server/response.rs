use crate::models::report::VulnerabilityReport;
use crate::models::vulnerability::{Vulnerability, VulnerabilityView};
use crate::server::request::{rejection_message, RequestRejection};
use vstd::prelude::*;

verus! {

/// What stands for the id of a report that was not stored.
pub const NO_ID: &'static str = "no ID generated";

/// What a fix that brought no code says.
pub const NO_FIXED_CODE: &'static str = "No fixed code returned";

/// What a question that brought no answer says.
pub const NO_ANSWER: &'static str = "No response from AI";

/// The answer to an audit: the report, and the id under which it is stored.
#[derive(Debug, Clone, PartialEq, Eq)]
pub struct AuditResponse {
    pub report: VulnerabilityReport,
    pub _id: String,
}

/// The answer to a request that was turned away or could not be served.
#[derive(Debug, Clone, PartialEq, Eq)]
pub struct AuditErrorResponse {
    pub error: String,
}

/// The answer to a fix: the fixed code.
#[derive(Debug, Clone, PartialEq, Eq)]
pub struct FixResponse {
    pub code: String,
}

/// The answer to a question.
#[derive(Debug, Clone, PartialEq, Eq)]
pub struct ChatResponse {
    pub text: String,
}

/// The answer to a request for a stored report.
#[derive(Debug, Clone, PartialEq, Eq)]
pub struct HistoryResponse {
    pub report: Vec<Vulnerability>,
}

/// The id that an audit answers with: the one the store gave, and `NO_ID`
/// where it gave none.
pub open spec fn answered_id(stored: Option<Seq<char>>) -> Seq<char> {
    match stored {
        Some(id) => id,
        None => NO_ID@,
    }
}

impl AuditResponse {
    /// The answer that carries `report`, whether or not it could be stored.
    pub fn new(report: VulnerabilityReport, stored: Option<String>) -> (response: AuditResponse)
        ensures
            response.report == report,
            response._id@ == answered_id(stored.deep_view()),
    {
        let _id = match stored {
            Some(id) => id,
            None => String::from_str(NO_ID),
        };
        AuditResponse { report, _id }
    }
}

impl AuditErrorResponse {
    /// The answer that tells why a request was turned away.
    pub fn rejected(rejection: RequestRejection) -> (response: AuditErrorResponse)
        ensures
            response.error@ == rejection_message(rejection),
    {
        AuditErrorResponse { error: String::from_str(rejection.message()) }
    }
}

impl FixResponse {
    /// The answer to a fix, given the text that the fix brought: the code
    /// where there is one, and else the reason why there is none.
    pub fn from_fixed(fixed: Option<String>) -> (r: Result<FixResponse, AuditErrorResponse>)
        ensures
            match r {
                Ok(response) => fixed.deep_view() == Some(response.code@),
                Err(failure) => fixed is None && failure.error@ == NO_FIXED_CODE@,
            },
    {
        match fixed {
            Some(code) => Ok(FixResponse { code }),
            None => Err(AuditErrorResponse { error: String::from_str(NO_FIXED_CODE) }),
        }
    }
}

impl ChatResponse {
    /// The answer to a question, given the text that the question brought:
    /// `Ok` with the text where there is one, and `Err` with `NO_ANSWER`
    /// in its place where there is none.
    pub fn from_answer(answer: Option<String>) -> (r: Result<ChatResponse, ChatResponse>)
        ensures
            match r {
                Ok(response) => answer.deep_view() == Some(response.text@),
                Err(failure) => answer is None && failure.text@ == NO_ANSWER@,
            },
    {
        match answer {
            Some(text) => Ok(ChatResponse { text }),
            None => Err(ChatResponse { text: String::from_str(NO_ANSWER) }),
        }
    }
}

impl HistoryResponse {
    /// The answer that carries what was loaded; nothing loaded gives the
    /// empty list.
    pub fn from_loaded(loaded: Option<Vec<Vulnerability>>) -> (response: HistoryResponse)
        ensures
            response.report.deep_view() == match loaded {
                Some(found) => found.deep_view(),
                None => Seq::<VulnerabilityView>::empty(),
            },
    {
        match loaded {
            Some(report) => HistoryResponse { report },
            None => {
                let report: Vec<Vulnerability> = Vec::new();
                HistoryResponse { report }
            },
        }
    }
}

} // verus!
