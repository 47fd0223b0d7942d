//! The turn: from a user message to the response and the fragment to store.
//!
//! A turn alternates between this crate, which decides, and the caller, which
//! fetches, prompts and saves. Each stage of a turn is a type of its own. It
//! says what the caller does next, and takes the outcome to the next stage:
//!
//! 1. [`Loom::weave`] checks the configuration and gives a [`Loading`]: fetch
//!    the fragment stored under its key.
//! 2. [`Loading::fetched`] gives a [`Prompting`]: either a [`Summarizing`],
//!    to prompt for a summary first, or a [`Generating`].
//! 3. [`Summarizing::summarized`] gives a [`Generating`]: prompt for the
//!    response.
//! 4. [`Generating::answered`] gives a [`Saving`]: save the fragment.
//! 5. [`Saving::saved`] gives the response.
//!
//! A stage that fails gives an error and no next stage, so nothing is
//! prompted or saved after a failure.

use vstd::prelude::*;
use crate::assembler::{build_response_request, build_summary_request, first_unknown_role,
    response_request, roles_known, summary_request};
use crate::budget::{needs_compaction, plan_turn, response_budget, response_tokens,
    summary_budget, Plan};
use crate::fragment::{compacted_view, fits, lemma_content_tokens_push, ContextMessage,
    ContextMessageView, TapestryFragment, TapestryFragmentView};
use crate::loom::{Loom, Loreweaver};
use crate::models::{countable, p50k_token_count, Models, Token, Tokens};
use crate::prompt::{tells_no_content, PromptRequest, PromptRequestView, PromptResponse, Sampling};
use crate::types::{LoomError, StorageError, WeaveError, WrapperRole};

verus! {

/// Calls `chrono::Utc::now` and writes the time with `DateTime::to_rfc3339`.
///
/// Trusted: nothing is claimed of the text, which depends on the clock.
#[verifier::external_body]
fn timestamp_now() -> String {
    chrono::Utc::now().to_rfc3339()
}

/// What stays the same through a turn.
#[derive(Debug)]
pub struct Turn {
    key: String,
    system: String,
    msg: String,
    account_id: String,
    reservation: Tokens,
    incoming: Tokens,
    model: Models,
    sampling: Sampling,
}

/// What a [`Turn`] holds.
pub struct TurnView {
    /// The key under which the conversation is stored.
    pub key: Seq<char>,
    /// The system instruction.
    pub system: Seq<char>,
    /// The user message.
    pub msg: Seq<char>,
    /// The author of the user message; empty where none was given.
    pub account_id: Seq<char>,
    /// The reserved share of the context window, in tokens.
    pub reservation: nat,
    pub model: Models,
    pub sampling: Sampling,
}

impl TurnView {
    /// The tokens of the user message.
    pub open spec fn incoming(self) -> nat {
        p50k_token_count(self.msg)
    }
}

impl View for Turn {
    type V = TurnView;

    closed spec fn view(&self) -> TurnView {
        TurnView {
            key: self.key@,
            system: self.system@,
            msg: self.msg@,
            account_id: self.account_id@,
            reservation: self.reservation as nat,
            model: self.model,
            sampling: self.sampling,
        }
    }
}

impl Turn {
    #[verifier::type_invariant]
    spec fn counted(self) -> bool {
        countable(self.msg@) && self.incoming as nat == p50k_token_count(self.msg@)
    }

    /// The key under which the conversation is stored.
    pub fn key(&self) -> (key: &String)
        ensures
            key@ == self@.key,
    {
        &self.key
    }
}

/// A turn that waits for the stored fragment.
#[derive(Debug)]
pub struct Loading {
    pub turn: Turn,
}

/// A turn that waits for the summary of the fragment it loaded.
#[derive(Debug)]
pub struct Summarizing {
    pub turn: Turn,
    /// The request for the summary.
    pub request: PromptRequest,
}

/// A turn that waits for the response.
#[derive(Debug)]
pub struct Generating {
    pub turn: Turn,
    /// The fragment in use: the one loaded, or the one a compaction started.
    pub fragment: TapestryFragment,
    /// Whether this turn compacted the fragment it loaded.
    pub summarized: bool,
    /// The request for the response.
    pub request: PromptRequest,
}

/// A turn that waits for its fragment to be saved.
#[derive(Debug)]
pub struct Saving {
    /// The key under which to save.
    pub key: String,
    /// The fragment to save.
    pub fragment: TapestryFragment,
    /// Whether to save it as a new fragment, not as the current one.
    pub is_new_fragment: bool,
    /// The response, which the caller gets once the fragment is saved.
    pub response: String,
}

/// What a turn prompts for once it has the stored fragment.
#[derive(Debug)]
pub enum Prompting {
    Summarize(Summarizing),
    Generate(Generating),
}

/// The fragment a turn starts from: the stored one, or the empty one where
/// none is stored.
pub open spec fn loaded(stored: Option<TapestryFragment>) -> TapestryFragmentView {
    match stored {
        Some(fragment) => fragment@,
        None => TapestryFragmentView::empty(),
    }
}

/// An error names the role of the first message whose role is unknown.
pub open spec fn names_first_unknown_role(
    error: LoomError,
    history: Seq<ContextMessageView>,
) -> bool {
    &&& error is Weave
    &&& error->Weave_0 is InvalidRole
    &&& exists|i: int| #[trigger]
        first_unknown_role(history, i) && error->Weave_0->InvalidRole_0@ == history[i].role
}

/// The request that a turn sends for a summary of the fragment it loaded.
pub open spec fn summarizes(
    turn: TurnView,
    fragment: TapestryFragmentView,
    next: Summarizing,
) -> bool {
    &&& next.turn@ == turn
    &&& next.request@ == (PromptRequestView {
        model: turn.model,
        messages: summary_request(
            turn.system,
            fragment.context_messages,
            summary_budget(turn.reservation, fragment.context_tokens),
        ),
        max_tokens: summary_budget(turn.reservation, fragment.context_tokens),
        sampling: turn.sampling,
    })
}

/// The request that a turn sends for a response, after the fragment in use.
pub open spec fn generates(
    turn: TurnView,
    fragment: TapestryFragmentView,
    summarized: bool,
    next: Generating,
) -> bool {
    &&& next.turn@ == turn
    &&& next.fragment@ == fragment
    &&& next.summarized == summarized
    &&& response_budget(turn.reservation, fragment.context_tokens, turn.incoming()) > 0
    &&& next.request@ == (PromptRequestView {
        model: turn.model,
        messages: response_request(
            turn.system,
            fragment.context_messages,
            turn.account_id,
            turn.msg,
            response_budget(turn.reservation, fragment.context_tokens, turn.incoming()) as nat,
        ),
        max_tokens: response_budget(
            turn.reservation,
            fragment.context_tokens,
            turn.incoming(),
        ) as nat,
        sampling: turn.sampling,
    })
}

/// A summary can be counted, and leaves tokens for a response once it and
/// the user message are taken from the reservation.
pub open spec fn leaves_budget(turn: TurnView, summary: Seq<char>) -> bool {
    countable(summary) && response_budget(
        turn.reservation,
        p50k_token_count(summary),
        turn.incoming(),
    ) > 0
}

/// A fragment is another one with a user message and the assistant's reply
/// appended, in that order, and their tokens added to the total.
pub open spec fn exchange_appended(
    before: TapestryFragmentView,
    after: TapestryFragmentView,
    account_id: Seq<char>,
    msg: Seq<char>,
    reply: Seq<char>,
) -> bool {
    let n = before.context_messages.len() as int;
    &&& after.context_tokens == before.context_tokens + p50k_token_count(msg) + p50k_token_count(
        reply,
    )
    &&& after.context_messages.len() == n + 2
    &&& after.context_messages.subrange(0, n) == before.context_messages
    &&& after.context_messages[n].says(WrapperRole::User, account_id, msg)
    &&& after.context_messages[n + 1].says(WrapperRole::Assistant, account_id, reply)
}

/// What a turn hands over to be saved, after a reply.
pub open spec fn saves(stage: Generating, reply: Seq<char>, next: Saving) -> bool {
    &&& next.key@ == stage.turn@.key
    &&& next.is_new_fragment == stage.summarized
    &&& next.response@ == reply
    &&& exchange_appended(
        stage.fragment@,
        next.fragment@,
        stage.turn@.account_id,
        stage.turn@.msg,
        reply,
    )
}

fn completion_failed(reason: String) -> (error: LoomError)
    ensures
        error == LoomError::Weave(WeaveError::CompletionFailed(reason)),
{
    LoomError::Weave(WeaveError::CompletionFailed(reason))
}

impl Loading {
    /// Begins a turn under a reservation. There is no turn where the user
    /// message is too long to be counted.
    pub fn begin(
        key: String,
        system: String,
        msg: String,
        account_id: String,
        reservation: Tokens,
        model: Models,
        sampling: Sampling,
    ) -> (loading: Option<Loading>)
        ensures
            !countable(msg@) ==> loading is None,
            countable(msg@) ==> loading is Some && loading->Some_0.turn@ == (TurnView {
                key: key@,
                system: system@,
                msg: msg@,
                account_id: account_id@,
                reservation: reservation as nat,
                model,
                sampling,
            }),
    {
        match msg.count_tokens() {
            Some(incoming) => Some(
                Loading {
                    turn: Turn {
                        key,
                        system,
                        msg,
                        account_id,
                        reservation,
                        incoming,
                        model,
                        sampling,
                    },
                },
            ),
            None => None,
        }
    }

    /// Takes what the store returned for the turn's key.
    ///
    /// A failure of the store fails the turn. Where nothing is stored the
    /// turn starts from the empty fragment. A message with an unknown role
    /// fails the turn. Otherwise the turn prompts: for a summary where the
    /// fragment and the user message together reach the reservation, else
    /// for the response.
    pub fn fetched(self, outcome: Result<Option<TapestryFragment>, StorageError>) -> (next: Result<
        Prompting,
        LoomError,
    >)
        ensures
            outcome is Err ==> next == Err::<Prompting, LoomError>(
                LoomError::Storage(outcome->Err_0),
            ),
            outcome is Ok && !roles_known(loaded(outcome->Ok_0).context_messages) ==> next is Err
                && names_first_unknown_role(next->Err_0, loaded(outcome->Ok_0).context_messages),
            outcome is Ok && roles_known(loaded(outcome->Ok_0).context_messages)
                && needs_compaction(
                self.turn@.reservation,
                loaded(outcome->Ok_0).context_tokens,
                self.turn@.incoming(),
            ) ==> next is Ok && next->Ok_0 is Summarize && summarizes(
                self.turn@,
                loaded(outcome->Ok_0),
                next->Ok_0->Summarize_0,
            ),
            outcome is Ok && roles_known(loaded(outcome->Ok_0).context_messages)
                && !needs_compaction(
                self.turn@.reservation,
                loaded(outcome->Ok_0).context_tokens,
                self.turn@.incoming(),
            ) ==> next is Ok && next->Ok_0 is Generate && generates(
                self.turn@,
                loaded(outcome->Ok_0),
                false,
                next->Ok_0->Generate_0,
            ),
    {
        let fragment = match outcome {
            Err(e) => {
                return Err(LoomError::Storage(e));
            },
            Ok(Some(fragment)) => fragment,
            Ok(None) => TapestryFragment::new(),
        };
        let turn = self.turn;
        proof {
            use_type_invariant(&turn);
        }
        match plan_turn(turn.reservation, fragment.context_tokens, turn.incoming) {
            Plan::Summarize { tokens_for_summary } => {
                match build_summary_request(
                    &turn.system,
                    &fragment.context_messages,
                    tokens_for_summary,
                ) {
                    Ok(messages) => {
                        let request = PromptRequest {
                            model: turn.model,
                            messages,
                            max_tokens: tokens_for_summary,
                            sampling: turn.sampling,
                        };
                        Ok(Prompting::Summarize(Summarizing { turn, request }))
                    },
                    Err(e) => Err(LoomError::Weave(e)),
                }
            },
            Plan::Generate { max_output_tokens } => {
                match build_response_request(
                    &turn.system,
                    &fragment.context_messages,
                    &turn.account_id,
                    &turn.msg,
                    max_output_tokens,
                ) {
                    Ok(messages) => {
                        let request = PromptRequest {
                            model: turn.model,
                            messages,
                            max_tokens: max_output_tokens,
                            sampling: turn.sampling,
                        };
                        Ok(
                            Prompting::Generate(
                                Generating { turn, fragment, summarized: false, request },
                            ),
                        )
                    },
                    Err(e) => Err(LoomError::Weave(e)),
                }
            },
        }
    }
}

impl Summarizing {
    /// Takes what the completion service returned for the summary request:
    /// a response, or the reason of its failure.
    ///
    /// A failure, or a response without content, fails the turn. Otherwise
    /// the summary starts a new fragment, which holds the system instruction
    /// and the summary and counts the summary's tokens. Where the summary is
    /// too long to be counted, or that fragment and the user message leave
    /// nothing of the reservation, the turn fails with `BudgetExhausted`.
    /// Otherwise the turn prompts for the response.
    pub fn summarized(self, outcome: Result<PromptResponse, String>) -> (next: Result<
        Generating,
        LoomError,
    >)
        ensures
            outcome is Err ==> next == Err::<Generating, LoomError>(
                LoomError::Weave(WeaveError::CompletionFailed(outcome->Err_0)),
            ),
            outcome is Ok && outcome->Ok_0.first_content() is None ==> next is Err
                && tells_no_content(next->Err_0),
            outcome is Ok && outcome->Ok_0.first_content() is Some && !leaves_budget(
                self.turn@,
                outcome->Ok_0.first_content()->Some_0,
            ) ==> next == Err::<Generating, LoomError>(
                LoomError::Weave(WeaveError::BudgetExhausted),
            ),
            outcome is Ok && outcome->Ok_0.first_content() is Some && leaves_budget(
                self.turn@,
                outcome->Ok_0.first_content()->Some_0,
            ) ==> next is Ok && next->Ok_0.fragment@.context_messages.len() == 2 && generates(
                self.turn@,
                compacted_view(
                    self.turn@.system,
                    outcome->Ok_0.first_content()->Some_0,
                    p50k_token_count(outcome->Ok_0.first_content()->Some_0),
                    next->Ok_0.fragment@.context_messages[0].timestamp,
                    next->Ok_0.fragment@.context_messages[1].timestamp,
                ),
                true,
                next->Ok_0,
            ),
    {
        let response = match outcome {
            Err(reason) => {
                return Err(completion_failed(reason));
            },
            Ok(response) => response,
        };
        let summary = match Loreweaver::get_content(&response) {
            Err(e) => {
                return Err(e);
            },
            Ok(summary) => summary,
        };
        let turn = self.turn;
        proof {
            use_type_invariant(&turn);
        }
        let summary_tokens = match summary.count_tokens() {
            Some(tokens) => tokens,
            None => {
                return Err(LoomError::Weave(WeaveError::BudgetExhausted));
            },
        };
        match response_tokens(turn.reservation, summary_tokens, turn.incoming) {
            Err(e) => Err(LoomError::Weave(e)),
            Ok(max_output_tokens) => {
                let fragment = TapestryFragment::compacted(
                    turn.system.clone(),
                    summary,
                    summary_tokens,
                    timestamp_now(),
                    timestamp_now(),
                );
                assert(roles_known(fragment@.context_messages));
                match build_response_request(
                    &turn.system,
                    &fragment.context_messages,
                    &turn.account_id,
                    &turn.msg,
                    max_output_tokens,
                ) {
                    Ok(messages) => {
                        let request = PromptRequest {
                            model: turn.model,
                            messages,
                            max_tokens: max_output_tokens,
                            sampling: turn.sampling,
                        };
                        Ok(Generating { turn, fragment, summarized: true, request })
                    },
                    Err(e) => Err(LoomError::Weave(e)),
                }
            },
        }
    }
}

impl Generating {
    /// Takes what the completion service returned for the response request:
    /// a response, or the reason of its failure.
    ///
    /// A failure, or a response without content, fails the turn, and nothing
    /// is to be saved. Otherwise the user message and the reply, both under
    /// the author of the user message, are appended to the fragment in use,
    /// and their tokens are added to its total. The fragment is to be saved
    /// as a new one exactly where this turn compacted. Where the reply is too
    /// long to be counted, or the total would no longer fit its type, the
    /// turn fails with `BudgetExhausted`.
    pub fn answered(self, outcome: Result<PromptResponse, String>) -> (next: Result<
        Saving,
        LoomError,
    >)
        ensures
            outcome is Err ==> next == Err::<Saving, LoomError>(
                LoomError::Weave(WeaveError::CompletionFailed(outcome->Err_0)),
            ),
            outcome is Ok && outcome->Ok_0.first_content() is None ==> next is Err
                && tells_no_content(next->Err_0),
            outcome is Ok && outcome->Ok_0.first_content() is Some && !fits(
                self.fragment@.context_tokens + self.turn@.incoming(),
                outcome->Ok_0.first_content()->Some_0,
            ) ==> next == Err::<Saving, LoomError>(LoomError::Weave(WeaveError::BudgetExhausted)),
            outcome is Ok && outcome->Ok_0.first_content() is Some && fits(
                self.fragment@.context_tokens + self.turn@.incoming(),
                outcome->Ok_0.first_content()->Some_0,
            ) ==> next is Ok && saves(
                self,
                outcome->Ok_0.first_content()->Some_0,
                next->Ok_0,
            ),
    {
        let response = match outcome {
            Err(reason) => {
                return Err(completion_failed(reason));
            },
            Ok(response) => response,
        };
        let reply = match Loreweaver::get_content(&response) {
            Err(e) => {
                return Err(e);
            },
            Ok(reply) => reply,
        };
        let Generating { turn, mut fragment, summarized, request: _ } = self;
        proof {
            use_type_invariant(&turn);
        }
        let reply_tokens = match reply.count_tokens() {
            Some(tokens) => tokens,
            None => {
                return Err(LoomError::Weave(WeaveError::BudgetExhausted));
            },
        };
        if turn.incoming > u64::MAX - fragment.context_tokens || reply_tokens > u64::MAX
            - fragment.context_tokens - turn.incoming {
            return Err(LoomError::Weave(WeaveError::BudgetExhausted));
        }
        let ghost before = fragment@;
        let user = ContextMessage::new(
            WrapperRole::User,
            turn.account_id.clone(),
            turn.msg,
            timestamp_now(),
        );
        let assistant = ContextMessage::new(
            WrapperRole::Assistant,
            turn.account_id,
            reply.clone(),
            timestamp_now(),
        );
        fragment.push_counted(user, turn.incoming);
        fragment.push_counted(assistant, reply_tokens);
        assert(fragment@.context_messages.subrange(0, before.context_messages.len() as int)
            =~= before.context_messages);
        Ok(Saving { key: turn.key, fragment, is_new_fragment: summarized, response: reply })
    }
}

impl Saving {
    /// Takes what the store returned for the save. The caller gets the
    /// response only where the fragment was saved.
    pub fn saved(self, outcome: Result<(), StorageError>) -> (response: Result<String, LoomError>)
        ensures
            outcome is Ok ==> response == Ok::<String, LoomError>(self.response),
            outcome is Err ==> response == Err::<String, LoomError>(
                LoomError::Storage(outcome->Err_0),
            ),
    {
        match outcome {
            Ok(()) => Ok(self.response),
            Err(e) => Err(LoomError::Storage(e)),
        }
    }
}


/// A fragment whose total is the sum over its messages keeps that property
/// when an exchange is appended.
pub proof fn lemma_exchange_keeps_balance(
    before: TapestryFragmentView,
    after: TapestryFragmentView,
    account_id: Seq<char>,
    msg: Seq<char>,
    reply: Seq<char>,
)
    requires
        before.is_balanced(),
        exchange_appended(before, after, account_id, msg, reply),
    ensures
        after.is_balanced(),
{
    let n = before.context_messages.len() as int;
    let user = after.context_messages[n];
    let assistant = after.context_messages[n + 1];
    assert(after.context_messages =~= before.context_messages.push(user).push(assistant)) by {
        assert forall|i: int| 0 <= i < n implies after.context_messages[i]
            == before.context_messages[i] by {
            assert(after.context_messages.subrange(0, n)[i] == after.context_messages[i]);
        }
    }
    lemma_content_tokens_push(before.context_messages, user);
    lemma_content_tokens_push(before.context_messages.push(user), assistant);
}

/// Where a fragment and a message together stay below the reservation,
/// tokens are left for the response.
pub proof fn lemma_budget_left_without_compaction(
    reservation: nat,
    fragment_tokens: nat,
    incoming: nat,
)
    ensures
        !needs_compaction(reservation, fragment_tokens, incoming) <==> response_budget(
            reservation,
            fragment_tokens,
            incoming,
        ) > 0,
{
}

/// A turn that does not compact saves a continuation of the fragment it
/// loaded: the same messages, then the user message and the reply, in that
/// order, and nothing else.
pub proof fn lemma_turn_without_compaction(
    turn: TurnView,
    stored: TapestryFragmentView,
    stage: Generating,
    reply: Seq<char>,
    saving: Saving,
)
    requires
        generates(turn, stored, false, stage),
        saves(stage, reply, saving),
    ensures
        !needs_compaction(turn.reservation, stored.context_tokens, turn.incoming()),
        !saving.is_new_fragment,
        saving.key@ == turn.key,
        saving.response@ == reply,
        exchange_appended(stored, saving.fragment@, turn.account_id, turn.msg, reply),
        stored.is_balanced() ==> saving.fragment@.is_balanced(),
{
    if stored.is_balanced() {
        lemma_exchange_keeps_balance(stored, saving.fragment@, turn.account_id, turn.msg, reply);
    }
}

/// A turn that compacts saves a new fragment of exactly four messages: the
/// system instruction, the summary, the user message and the reply. Its total
/// counts the summary, the user message and the reply.
pub proof fn lemma_turn_with_compaction(
    turn: TurnView,
    summary: Seq<char>,
    stage: Generating,
    reply: Seq<char>,
    saving: Saving,
)
    requires
        stage.fragment@.context_messages.len() == 2,
        generates(
            turn,
            compacted_view(
                turn.system,
                summary,
                p50k_token_count(summary),
                stage.fragment@.context_messages[0].timestamp,
                stage.fragment@.context_messages[1].timestamp,
            ),
            true,
            stage,
        ),
        saves(stage, reply, saving),
    ensures
        saving.is_new_fragment,
        saving.key@ == turn.key,
        saving.response@ == reply,
        saving.fragment@.context_messages.len() == 4,
        saving.fragment@.context_messages[0].says(
            WrapperRole::System,
            Seq::<char>::empty(),
            turn.system,
        ),
        saving.fragment@.context_messages[1].says(
            WrapperRole::System,
            Seq::<char>::empty(),
            summary,
        ),
        saving.fragment@.context_messages[2].says(WrapperRole::User, turn.account_id, turn.msg),
        saving.fragment@.context_messages[3].says(WrapperRole::Assistant, turn.account_id, reply),
        saving.fragment@.context_tokens == p50k_token_count(summary) + p50k_token_count(turn.msg)
            + p50k_token_count(reply),
{
    let before = stage.fragment@.context_messages;
    let after = saving.fragment@.context_messages;
    assert(after.subrange(0, 2)[0] == after[0]);
    assert(after.subrange(0, 2)[1] == after[1]);
}

} // verus!
