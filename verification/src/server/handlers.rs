use crate::agents::chat_agent::{chat_call, ChatAgent};
use crate::agents::fixing_agent::{fix_call, FixingAgent};
use crate::remote::{outcome_text, ChatCall, ChatOutcome};
use crate::server::request::{
    chat_verdict, fix_verdict, rejection_message, ChatRequest, FixRequest,
};
use crate::server::response::{
    AuditErrorResponse, ChatResponse, FixResponse, NO_ANSWER, NO_FIXED_CODE,
};
use vstd::pervasive::unreached;
use vstd::prelude::*;

verus! {

/// First step of a fix: the request is checked, and a request that passes
/// is turned into the one request that has its findings fixed.
pub fn plan_fix(request: FixRequest, models: &Vec<String>, languages: &Vec<String>) -> (r: Result<
    ChatCall,
    AuditErrorResponse,
>)
    ensures
        match r {
            Ok(call) => {
                &&& fix_verdict(request@, models.deep_view(), languages.deep_view()) is None
                &&& Some(call@) == fix_call(
                    request.contract_code@,
                    request.vulnerabilities.deep_view(),
                    request.model@,
                    request.language@,
                )
            },
            Err(rejected) => {
                &&& fix_verdict(request@, models.deep_view(), languages.deep_view()) matches Some(
                    rejection,
                )
                &&& rejected.error@ == rejection_message(rejection)
            },
        },
{
    match request.check(models, languages) {
        Some(rejection) => Err(AuditErrorResponse::rejected(rejection)),
        None => {
            let FixRequest { contract_code, language, model, vulnerabilities } = request;
            let call = FixingAgent::fix(
                contract_code,
                vulnerabilities,
                model.as_str(),
                language.as_str(),
            );
            match call {
                Some(call) => Ok(call),
                None => unreached(),
            }
        },
    }
}

/// Last step of a fix: the answer to the one who asked, given how the
/// request to the service ended.
pub fn answer_fix(outcome: ChatOutcome) -> (r: Result<FixResponse, AuditErrorResponse>)
    ensures
        match r {
            Ok(response) => outcome_text(outcome@) == Some(response.code@),
            Err(failure) => outcome_text(outcome@) is None && failure.error@ == NO_FIXED_CODE@,
        },
{
    FixResponse::from_fixed(outcome.into_text())
}

/// First step of a question: the request is checked, and a request that
/// passes is turned into the one request that has it answered.
pub fn plan_chat(request: ChatRequest, models: &Vec<String>) -> (r: Result<
    ChatCall,
    AuditErrorResponse,
>)
    ensures
        match r {
            Ok(call) => {
                &&& chat_verdict(request@, models.deep_view()) is None
                &&& Some(call@) == chat_call(request.text@, request.model@)
            },
            Err(rejected) => {
                &&& chat_verdict(request@, models.deep_view()) matches Some(rejection)
                &&& rejected.error@ == rejection_message(rejection)
            },
        },
{
    match request.check(models) {
        Some(rejection) => Err(AuditErrorResponse::rejected(rejection)),
        None => {
            let ChatRequest { text, model } = request;
            match ChatAgent::chat(text, model.as_str()) {
                Some(call) => Ok(call),
                None => unreached(),
            }
        },
    }
}

/// Last step of a question: the answer to the one who asked, given how the
/// request to the service ended.
pub fn answer_chat(outcome: ChatOutcome) -> (r: Result<ChatResponse, ChatResponse>)
    ensures
        match r {
            Ok(response) => outcome_text(outcome@) == Some(response.text@),
            Err(failure) => outcome_text(outcome@) is None && failure.text@ == NO_ANSWER@,
        },
{
    ChatResponse::from_answer(outcome.into_text())
}

} // verus!
