//! Requests to the completion service, and what it returns.

use vstd::prelude::*;
use crate::assembler::{params_views, MessageParams, MessageParamsView};
use crate::models::{Models, Tokens};
use crate::types::LoomError;

verus! {

/// How the model samples, in thousandths: 800 stands for 0.8.
#[derive(Clone, Copy, Debug, PartialEq, Eq, Structural)]
pub struct Sampling {
    /// The sampling temperature, between 0 and 1000.
    pub temperature: i32,
    /// Between -2000 and 2000. Positive values penalize tokens that have
    /// appeared in the text so far.
    pub presence_penalty: i32,
    /// Between -2000 and 2000. Positive values penalize tokens by their
    /// frequency in the text so far.
    pub frequency_penalty: i32,
}

/// A request to the completion service.
#[derive(Debug, Clone, PartialEq, Eq)]
pub struct PromptRequest {
    pub model: Models,
    pub messages: Vec<MessageParams>,
    /// The most tokens the completion may take.
    pub max_tokens: Tokens,
    pub sampling: Sampling,
}

/// What a [`PromptRequest`] holds.
pub struct PromptRequestView {
    pub model: Models,
    pub messages: Seq<MessageParamsView>,
    pub max_tokens: nat,
    pub sampling: Sampling,
}

impl View for PromptRequest {
    type V = PromptRequestView;

    open spec fn view(&self) -> PromptRequestView {
        PromptRequestView {
            model: self.model,
            messages: params_views(self.messages@),
            max_tokens: self.max_tokens as nat,
            sampling: self.sampling,
        }
    }
}

/// What the completion service returned: the content of each choice, where
/// it has one.
#[derive(Debug, Clone, PartialEq, Eq)]
pub struct PromptResponse {
    pub choices: Vec<Option<String>>,
}

impl PromptResponse {
    /// The content of the first choice.
    pub open spec fn first_content(&self) -> Option<Seq<char>> {
        if self.choices@.len() > 0 {
            match self.choices@[0] {
                Some(content) => Some(content@),
                None => None,
            }
        } else {
            None
        }
    }
}

/// What is told where a response holds no content.
pub open spec fn no_content_message() -> Seq<char> {
    "Failed to get content from OpenAI response"@
}

/// An error tells that the completion service gave no content.
pub open spec fn tells_no_content(error: LoomError) -> bool {
    &&& error is Weave
    &&& error->Weave_0 is CompletionFailed
    &&& error->Weave_0->CompletionFailed_0@ == no_content_message()
}

} // verus!
