use crate::remote::{ChatCall, ChatCallView};
use crate::text::{is_blank, str_is_blank};
use vstd::prelude::*;

verus! {

/// The request to answer a question, up to the question.
pub const CHAT_OPENING: &'static str = r#"You are blockchain expert specializing in smart contracts. 
            Answer this question concisely and clearly:

            "#;

/// The end of the request to answer a question.
pub const CHAT_CLOSING: &'static str = r#"
            
            Try to answer with no more than 500 characters. Try to avoid bullet list."#;
/// The question desk: it has one question on smart contracts answered.
#[derive(Debug, Clone, Copy, PartialEq, Eq)]
pub struct ChatAgent;

/// The whole text of the request to answer `question`.
pub open spec fn chat_prompt(question: Seq<char>) -> Seq<char> {
    CHAT_OPENING@ + question + CHAT_CLOSING@
}

/// The request by which `question` is answered: none for a blank question.
pub open spec fn chat_call(question: Seq<char>, model: Seq<char>) -> Option<ChatCallView> {
    if is_blank(question) {
        None
    } else {
        Some(ChatCallView { model: model, prompt: chat_prompt(question) })
    }
}

impl ChatAgent {
    /// The request that has `text` answered. A blank text is no question,
    /// and there is no request for it.
    pub fn chat(text: String, model: &str) -> (call: Option<ChatCall>)
        ensures
            call.deep_view() == chat_call(text@, model@),
    {
        if str_is_blank(text.as_str()) {
            return None;
        }
        let mut prompt = String::from_str(CHAT_OPENING);
        prompt.append(text.as_str());
        prompt.append(CHAT_CLOSING);
        Some(ChatCall::new(model, prompt))
    }
}

} // verus!
