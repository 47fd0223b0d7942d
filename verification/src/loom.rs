//! The configuration of turns, and the operations that a turn is made of.

use vstd::prelude::*;
use crate::assembler::{assemble, params_views, request_messages, roles_known, MessageParams};
use crate::budget::{append_decimal, decimal, Fraction};
use crate::fragment::{message_views, ContextMessage};
use crate::models::{countable, DefaultModel, Get, Models, Tokens};
use crate::prompt::{tells_no_content, PromptRequest, PromptRequestView, PromptResponse, Sampling};
use crate::turn::{names_first_unknown_role, Loading, TurnView};
use crate::types::{LoomError, WeaveError};

verus! {

/// Represents a unique identifier for any arbitrary entity.
///
/// The identifier gives the key under which the fragments of its
/// conversation are stored. The key of one identifier is always the same.
pub trait TapestryId {
    /// The key, as contracts speak of it.
    spec fn spec_base_key(&self) -> Seq<char>;

    /// Returns the base key.
    fn base_key(&self) -> (key: String)
        ensures
            key@ == self.spec_base_key(),
    ;
}

impl TapestryId for String {
    open spec fn spec_base_key(&self) -> Seq<char> {
        self@
    }

    fn base_key(&self) -> (key: String) {
        self.clone()
    }
}

/// The main configuration parameters for [`Loreweaver`].
#[derive(Clone, Copy, Debug)]
pub struct Config {
    /// The model to prompt.
    pub model: Models,
    /// The share of the context window that is reserved: a fragment that
    /// reaches it is compacted, and summaries and responses fit into it.
    pub summary_percentage: Fraction,
    pub sampling: Sampling,
}

impl Default for Config {
    fn default() -> (config: Config)
        ensures
            config.model == Models::GPT3,
            config.summary_percentage.wf(),
            config.summary_percentage.spec_numerator() == 1,
            config.summary_percentage.spec_denominator() == 10,
            config.sampling == (Sampling {
                temperature: 0,
                presence_penalty: 0,
                frequency_penalty: 0,
            }),
    {
        Config {
            model: DefaultModel::get(),
            summary_percentage: Fraction::tenth(),
            sampling: Sampling { temperature: 0, presence_penalty: 0, frequency_penalty: 0 },
        }
    }
}

/// What is told where the window asked for is larger than the model's.
pub open spec fn window_too_large_message(model: Models) -> Seq<char> {
    "Custom max tokens cannot be greater than model "@ + model.spec_name() + " max tokens: "@
        + decimal(model.spec_max_context_tokens())
}

/// The context window of a turn: the one asked for, else the model's.
pub open spec fn window_of(model: Models, custom_max_tokens: Option<Tokens>) -> nat {
    match custom_max_tokens {
        Some(custom) => custom as nat,
        None => model.spec_max_context_tokens(),
    }
}

/// The operations of a turn that need no outside service.
pub trait Loom {
    /// A stored message, from which request messages are built.
    type Message;

    /// The messages of a request.
    type RequestMessages;

    /// A request to the completion service.
    type Request;

    /// What the completion service returns.
    type Response;

    /// Starts a turn: prompts for a response to `msg` in the conversation of
    /// `tapestry_id`.
    ///
    /// Fails with `BadConfig`, before anything else is done, where the
    /// context window asked for exceeds the model's, and with
    /// `BudgetExhausted` where the user message is too long to be counted.
    ///
    /// # Parameters
    ///
    /// - `tapestry_id`: the conversation to prompt and to save messages to.
    /// - `system`: the system instruction.
    /// - `override_max_context_tokens`: a context window to use in place of
    ///   the model's. It may not exceed the model's.
    /// - `msg`: the user message.
    /// - `account_id`: the author of the user message, sent as the name of
    ///   the message. Where it is `None` the name is empty.
    fn weave<TID: TapestryId>(
        &self,
        tapestry_id: TID,
        system: String,
        override_max_context_tokens: Option<Tokens>,
        msg: String,
        account_id: Option<String>,
    ) -> Result<Loading, LoomError>;

    /// Build the messages of a request from stored messages.
    fn build_messages(msgs: Vec<Self::Message>) -> Result<Self::RequestMessages, LoomError>;

    /// The request that prompts the configured model with the messages.
    fn prompt(&self, msgs: Self::RequestMessages, max_tokens: Tokens) -> Self::Request;

    /// Get the content from the response.
    fn get_content(res: &Self::Response) -> Result<String, LoomError>;

    /// The reserved share of the context window, in tokens: what a fragment
    /// may reach before it is compacted, and what summaries and responses
    /// fit into.
    fn tokens_available(&self, model: Models, custom_max_tokens: Option<Tokens>) -> Tokens;
}

/// Runs turns under one configuration.
#[derive(Debug)]
pub struct Loreweaver {
    pub config: Config,
}

impl Loreweaver {
    pub fn new(config: Config) -> (weaver: Loreweaver)
        ensures
            weaver.config == config,
    {
        Loreweaver { config }
    }
}

fn window_too_large(model: Models) -> (error: LoomError)
    ensures
        error is Weave,
        error->Weave_0 is BadConfig,
        error->Weave_0->BadConfig_0@ == window_too_large_message(model),
{
    let mut text = String::from_str("Custom max tokens cannot be greater than model ");
    text.append(model.name());
    text.append(" max tokens: ");
    append_decimal(&mut text, model.max_context_tokens());
    LoomError::Weave(WeaveError::BadConfig(text))
}

impl Loom for Loreweaver {
    type Message = ContextMessage;

    type RequestMessages = Vec<MessageParams>;

    type Request = PromptRequest;

    type Response = PromptResponse;

    fn weave<TID: TapestryId>(
        &self,
        tapestry_id: TID,
        system: String,
        override_max_context_tokens: Option<Tokens>,
        msg: String,
        account_id: Option<String>,
    ) -> (started: Result<Loading, LoomError>)
        ensures
            window_of(self.config.model, override_max_context_tokens)
                > self.config.model.spec_max_context_tokens() ==> started is Err
                && started->Err_0 is Weave && started->Err_0->Weave_0 is BadConfig
                && started->Err_0->Weave_0->BadConfig_0@ == window_too_large_message(
                self.config.model,
            ),
            window_of(self.config.model, override_max_context_tokens)
                <= self.config.model.spec_max_context_tokens() && !countable(msg@) ==> started
                == Err::<Loading, LoomError>(LoomError::Weave(WeaveError::BudgetExhausted)),
            window_of(self.config.model, override_max_context_tokens)
                <= self.config.model.spec_max_context_tokens() && countable(msg@) ==> started
                is Ok && started->Ok_0.turn@ == (TurnView {
                key: tapestry_id.spec_base_key(),
                system: system@,
                msg: msg@,
                account_id: match account_id {
                    Some(id) => id@,
                    None => Seq::<char>::empty(),
                },
                reservation: self.config.summary_percentage.of(
                    window_of(self.config.model, override_max_context_tokens),
                ),
                model: self.config.model,
                sampling: self.config.sampling,
            }),
    {
        let model = self.config.model;
        if let Some(custom_max_tokens) = override_max_context_tokens {
            if custom_max_tokens > model.max_context_tokens() {
                return Err(window_too_large(model));
            }
        }
        let reservation = self.tokens_available(model, override_max_context_tokens);
        let account_id = match account_id {
            Some(id) => id,
            None => String::new(),
        };
        match Loading::begin(
            tapestry_id.base_key(),
            system,
            msg,
            account_id,
            reservation,
            model,
            self.config.sampling,
        ) {
            Some(loading) => Ok(loading),
            None => Err(LoomError::Weave(WeaveError::BudgetExhausted)),
        }
    }

    fn build_messages(msgs: Vec<ContextMessage>) -> (built: Result<Vec<MessageParams>, LoomError>)
        ensures
            roles_known(message_views(msgs@)) ==> built is Ok && params_views(built->Ok_0@)
                == request_messages(message_views(msgs@)),
            !roles_known(message_views(msgs@)) ==> built is Err && names_first_unknown_role(
                built->Err_0,
                message_views(msgs@),
            ),
    {
        match assemble(&msgs) {
            Ok(built) => Ok(built),
            Err(e) => Err(LoomError::Weave(e)),
        }
    }

    fn prompt(&self, msgs: Vec<MessageParams>, max_tokens: Tokens) -> (request: PromptRequest)
        ensures
            request@ == (PromptRequestView {
                model: self.config.model,
                messages: params_views(msgs@),
                max_tokens: max_tokens as nat,
                sampling: self.config.sampling,
            }),
    {
        PromptRequest {
            model: self.config.model,
            messages: msgs,
            max_tokens,
            sampling: self.config.sampling,
        }
    }

    fn get_content(res: &PromptResponse) -> (content: Result<String, LoomError>)
        ensures
            res.first_content() is Some ==> content is Ok && content->Ok_0@
                == res.first_content()->Some_0,
            res.first_content() is None ==> content is Err && tells_no_content(content->Err_0),
    {
        if res.choices.len() > 0 {
            if let Some(text) = &res.choices[0] {
                return Ok(text.clone());
            }
        }
        Err(
            LoomError::Weave(
                WeaveError::CompletionFailed(
                    String::from_str("Failed to get content from OpenAI response"),
                ),
            ),
        )
    }

    fn tokens_available(&self, model: Models, custom_max_tokens: Option<Tokens>) -> (reservation:
        Tokens)
        ensures
            reservation == self.config.summary_percentage.of(window_of(model, custom_max_tokens)),
            reservation <= window_of(model, custom_max_tokens),
    {
        let window = match custom_max_tokens {
            Some(custom) => custom,
            None => model.max_context_tokens(),
        };
        self.config.summary_percentage.apply(window)
    }
}

} // verus!
