use crate::models::vulnerability::{Vulnerability, VulnerabilityView};
use crate::text::{is_blank, str_eq, str_is_blank};
use vstd::prelude::*;

verus! {

/// What the rejection of a request for want of a parameter says.
pub const EMPTY_PARAMETER: &'static str = "Request parameters cannot be empty";

/// What the rejection of a request for its model says.
pub const UNSUPPORTED_MODEL: &'static str = "Selected AI model is not supported";

/// What the rejection of a request for its language says.
pub const UNSUPPORTED_LANGUAGE: &'static str = "Selected smart contract language is not supported";

/// A request to audit a contract.
#[derive(Debug, Clone, PartialEq, Eq)]
pub struct AuditRequest {
    pub contract_code: String,
    pub language: String,
    pub model: String,
}

/// A request to fix the listed findings in a contract.
#[derive(Debug, Clone, PartialEq, Eq)]
pub struct FixRequest {
    pub contract_code: String,
    pub language: String,
    pub model: String,
    pub vulnerabilities: Vec<Vulnerability>,
}

/// A question on smart contracts.
#[derive(Debug, Clone, PartialEq, Eq)]
pub struct ChatRequest {
    pub text: String,
    pub model: String,
}

/// A request for a report that was stored before.
#[derive(Debug, Clone, PartialEq, Eq)]
pub struct HistoryRequest {
    pub id: String,
}

/// Why a request is turned away before any work is done on it.
#[derive(Debug, Clone, Copy, PartialEq, Eq, Structural)]
pub enum RequestRejection {
    /// A parameter is blank, or a list that has to hold something is empty.
    EmptyParameter,
    /// The model is none of those on offer.
    UnsupportedModel,
    /// The language is none of those on offer.
    UnsupportedLanguage,
}

/// An audit request as plain values.
pub ghost struct AuditRequestView {
    pub contract_code: Seq<char>,
    pub language: Seq<char>,
    pub model: Seq<char>,
}

/// A fix request as plain values.
pub ghost struct FixRequestView {
    pub contract_code: Seq<char>,
    pub language: Seq<char>,
    pub model: Seq<char>,
    pub vulnerabilities: Seq<VulnerabilityView>,
}

/// A question as plain values.
pub ghost struct ChatRequestView {
    pub text: Seq<char>,
    pub model: Seq<char>,
}

impl View for AuditRequest {
    type V = AuditRequestView;

    open spec fn view(&self) -> AuditRequestView {
        AuditRequestView {
            contract_code: self.contract_code@,
            language: self.language@,
            model: self.model@,
        }
    }
}

impl View for FixRequest {
    type V = FixRequestView;

    open spec fn view(&self) -> FixRequestView {
        FixRequestView {
            contract_code: self.contract_code@,
            language: self.language@,
            model: self.model@,
            vulnerabilities: self.vulnerabilities.deep_view(),
        }
    }
}

impl View for ChatRequest {
    type V = ChatRequestView;

    open spec fn view(&self) -> ChatRequestView {
        ChatRequestView { text: self.text@, model: self.model@ }
    }
}

impl View for HistoryRequest {
    type V = Seq<char>;

    open spec fn view(&self) -> Seq<char> {
        self.id@
    }
}

/// The verdict on an audit request, given the models and languages on
/// offer: the first of the three checks that fails, in the order blank
/// parameter, model, language.
pub open spec fn audit_verdict(
    request: AuditRequestView,
    models: Seq<Seq<char>>,
    languages: Seq<Seq<char>>,
) -> Option<RequestRejection> {
    if is_blank(request.contract_code) || is_blank(request.language) || is_blank(request.model) {
        Some(RequestRejection::EmptyParameter)
    } else if !models.contains(request.model) {
        Some(RequestRejection::UnsupportedModel)
    } else if !languages.contains(request.language) {
        Some(RequestRejection::UnsupportedLanguage)
    } else {
        None
    }
}

/// The verdict on a fix request: as for an audit, and a request that lists
/// no finding counts as one with a blank parameter.
pub open spec fn fix_verdict(
    request: FixRequestView,
    models: Seq<Seq<char>>,
    languages: Seq<Seq<char>>,
) -> Option<RequestRejection> {
    if is_blank(request.contract_code) || is_blank(request.language) || is_blank(request.model)
        || request.vulnerabilities.len() == 0 {
        Some(RequestRejection::EmptyParameter)
    } else if !models.contains(request.model) {
        Some(RequestRejection::UnsupportedModel)
    } else if !languages.contains(request.language) {
        Some(RequestRejection::UnsupportedLanguage)
    } else {
        None
    }
}

/// The verdict on a question: blank parameter first, then the model.
pub open spec fn chat_verdict(request: ChatRequestView, models: Seq<Seq<char>>) -> Option<
    RequestRejection,
> {
    if is_blank(request.text) || is_blank(request.model) {
        Some(RequestRejection::EmptyParameter)
    } else if !models.contains(request.model) {
        Some(RequestRejection::UnsupportedModel)
    } else {
        None
    }
}

/// What a rejection says to the one who sent the request.
pub open spec fn rejection_message(rejection: RequestRejection) -> Seq<char> {
    match rejection {
        RequestRejection::EmptyParameter => EMPTY_PARAMETER@,
        RequestRejection::UnsupportedModel => UNSUPPORTED_MODEL@,
        RequestRejection::UnsupportedLanguage => UNSUPPORTED_LANGUAGE@,
    }
}

/// Whether `item` is one of `offered`.
pub fn is_offered(offered: &Vec<String>, item: &str) -> (found: bool)
    ensures
        found == offered.deep_view().contains(item@),
{
    let mut i: usize = 0;
    while i < offered.len()
        invariant
            i <= offered.len(),
            forall|k: int| 0 <= k < i ==> (#[trigger] offered.deep_view()[k]) != item@,
        decreases offered.len() - i,
    {
        if str_eq(offered[i].as_str(), item) {
            assert(offered.deep_view()[i as int] == item@);
            return true;
        }
        i += 1;
    }
    false
}

impl RequestRejection {
    /// What this rejection says to the one who sent the request.
    pub fn message(&self) -> (text: &'static str)
        ensures
            text@ == rejection_message(*self),
    {
        match self {
            RequestRejection::EmptyParameter => EMPTY_PARAMETER,
            RequestRejection::UnsupportedModel => UNSUPPORTED_MODEL,
            RequestRejection::UnsupportedLanguage => UNSUPPORTED_LANGUAGE,
        }
    }
}

impl AuditRequest {
    /// Checks the request against the models and languages on offer.
    pub fn check(&self, models: &Vec<String>, languages: &Vec<String>) -> (verdict: Option<
        RequestRejection,
    >)
        ensures
            verdict == audit_verdict(self@, models.deep_view(), languages.deep_view()),
    {
        if str_is_blank(self.contract_code.as_str()) || str_is_blank(self.language.as_str())
            || str_is_blank(self.model.as_str()) {
            Some(RequestRejection::EmptyParameter)
        } else if !is_offered(models, self.model.as_str()) {
            Some(RequestRejection::UnsupportedModel)
        } else if !is_offered(languages, self.language.as_str()) {
            Some(RequestRejection::UnsupportedLanguage)
        } else {
            None
        }
    }
}

impl FixRequest {
    /// Checks the request against the models and languages on offer.
    pub fn check(&self, models: &Vec<String>, languages: &Vec<String>) -> (verdict: Option<
        RequestRejection,
    >)
        ensures
            verdict == fix_verdict(self@, models.deep_view(), languages.deep_view()),
    {
        if str_is_blank(self.contract_code.as_str()) || str_is_blank(self.language.as_str())
            || str_is_blank(self.model.as_str()) || self.vulnerabilities.len() == 0 {
            Some(RequestRejection::EmptyParameter)
        } else if !is_offered(models, self.model.as_str()) {
            Some(RequestRejection::UnsupportedModel)
        } else if !is_offered(languages, self.language.as_str()) {
            Some(RequestRejection::UnsupportedLanguage)
        } else {
            None
        }
    }
}

impl ChatRequest {
    /// Checks the question against the models on offer.
    pub fn check(&self, models: &Vec<String>) -> (verdict: Option<RequestRejection>)
        ensures
            verdict == chat_verdict(self@, models.deep_view()),
    {
        if str_is_blank(self.text.as_str()) || str_is_blank(self.model.as_str()) {
            Some(RequestRejection::EmptyParameter)
        } else if !is_offered(models, self.model.as_str()) {
            Some(RequestRejection::UnsupportedModel)
        } else {
            None
        }
    }
}

} // verus!
