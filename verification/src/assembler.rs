//! Request assembly: from stored messages to the messages of a completion
//! request, in order.

use vstd::prelude::*;
use crate::budget::{response_directive, response_directive_text, summary_directive,
    summary_directive_text, word_ceiling, words_for};
use crate::fragment::{message_views, ContextMessage, ContextMessageView};
use crate::models::Tokens;
use crate::types::{is_role_name, role_named, WeaveError, WrapperRole};

verus! {

/// One message of a completion request.
#[derive(Debug, Clone, PartialEq, Eq)]
pub struct MessageParams {
    pub role: WrapperRole,
    pub content: String,
    /// The author, for user and assistant messages.
    pub name: Option<String>,
}

/// What a [`MessageParams`] holds.
pub struct MessageParamsView {
    pub role: WrapperRole,
    pub content: Seq<char>,
    pub name: Option<Seq<char>>,
}

impl View for MessageParams {
    type V = MessageParamsView;

    open spec fn view(&self) -> MessageParamsView {
        MessageParamsView {
            role: self.role,
            content: self.content@,
            name: match self.name {
                Some(name) => Some(name@),
                None => None,
            },
        }
    }
}

/// What each of a list of request messages holds.
pub open spec fn params_views(messages: Seq<MessageParams>) -> Seq<MessageParamsView> {
    messages.map_values(|m: MessageParams| m@)
}

/// A system message: it names no author.
pub open spec fn system_params(content: Seq<char>) -> MessageParamsView {
    MessageParamsView { role: WrapperRole::System, content, name: None }
}

/// A user message and its author.
pub open spec fn user_params(account_id: Seq<char>, content: Seq<char>) -> MessageParamsView {
    MessageParamsView { role: WrapperRole::User, content, name: Some(account_id) }
}

/// The request message for a stored message: the same role and content, and
/// the author only where the role is user or assistant.
pub open spec fn request_message(message: ContextMessageView) -> MessageParamsView
    recommends
        is_role_name(message.role),
{
    let role = role_named(message.role);
    MessageParamsView {
        role,
        content: message.content,
        name: if role == WrapperRole::User || role == WrapperRole::Assistant {
            Some(message.account_id)
        } else {
            None
        },
    }
}

/// The request messages for a list of stored messages, in the same order.
pub open spec fn request_messages(messages: Seq<ContextMessageView>) -> Seq<MessageParamsView> {
    messages.map_values(|m: ContextMessageView| request_message(m))
}

/// Every message carries one of the four roles.
pub open spec fn roles_known(messages: Seq<ContextMessageView>) -> bool {
    forall|i: int| 0 <= i < messages.len() ==> is_role_name(#[trigger] messages[i].role)
}

/// The message at `i` is the first whose role is none of the four.
pub open spec fn first_unknown_role(messages: Seq<ContextMessageView>, i: int) -> bool {
    &&& 0 <= i < messages.len()
    &&& !is_role_name(messages[i].role)
    &&& roles_known(messages.subrange(0, i))
}

/// Builds the request messages for a list of stored messages.
///
/// Fails with `InvalidRole` at the first message whose role is none of the
/// four, and names that role.
pub fn assemble(messages: &Vec<ContextMessage>) -> (built: Result<Vec<MessageParams>, WeaveError>)
    ensures
        roles_known(message_views(messages@)) ==> built is Ok && params_views(built->Ok_0@)
            == request_messages(message_views(messages@)),
        !roles_known(message_views(messages@)) ==> built is Err && built->Err_0 is InvalidRole
            && exists|i: int| #[trigger]
            first_unknown_role(message_views(messages@), i) && built->Err_0->InvalidRole_0@
                == messages@[i].role@,
{
    let ghost views = message_views(messages@);
    let mut built: Vec<MessageParams> = Vec::new();
    let mut i: usize = 0;
    while i < messages.len()
        invariant
            i <= messages.len(),
            views == message_views(messages@),
            roles_known(views.subrange(0, i as int)),
            params_views(built@) == request_messages(views.subrange(0, i as int)),
        decreases messages.len() - i,
    {
        let message = &messages[i];
        assert(views[i as int] == message@);
        match WrapperRole::parse(message.role.as_str()) {
            Ok(role) => {
                let name = match role {
                    WrapperRole::User | WrapperRole::Assistant => Some(message.account_id.clone()),
                    _ => None,
                };
                let params = MessageParams { role, content: message.content.clone(), name };
                assert(params@ == request_message(views[i as int]));
                let ghost before = built@;
                let ghost added = params@;
                built.push(params);
                assert(views.subrange(0, i + 1) =~= views.subrange(0, i as int).push(
                    views[i as int],
                ));
                assert(params_views(built@) =~= params_views(before).push(added));
                assert(request_messages(views.subrange(0, i + 1)) =~= request_messages(
                    views.subrange(0, i as int),
                ).push(request_message(views[i as int])));
                assert(roles_known(views.subrange(0, i + 1)));
                i += 1;
            },
            Err(e) => {
                assert(first_unknown_role(views, i as int));
                assert(!is_role_name(views[i as int].role));
                return Err(e);
            },
        }
    }
    assert(views.subrange(0, i as int) =~= views);
    Ok(built)
}

/// The request for a summary: the system instruction, the history, and the
/// directive that asks for a summary that fits the tokens set aside for it.
pub open spec fn summary_request(
    system: Seq<char>,
    history: Seq<ContextMessageView>,
    tokens_for_summary: nat,
) -> Seq<MessageParamsView> {
    seq![system_params(system)] + request_messages(history) + seq![
        system_params(summary_directive(word_ceiling(tokens_for_summary))),
    ]
}

/// The request for a response: the system instruction, the history, the new
/// user message, and the directive that bounds the length of the response.
pub open spec fn response_request(
    system: Seq<char>,
    history: Seq<ContextMessageView>,
    account_id: Seq<char>,
    msg: Seq<char>,
    max_output_tokens: nat,
) -> Seq<MessageParamsView> {
    seq![system_params(system)] + request_messages(history) + seq![
        user_params(account_id, msg),
        system_params(response_directive(word_ceiling(max_output_tokens))),
    ]
}

fn system_message(content: String) -> (message: MessageParams)
    ensures
        message@ == system_params(content@),
{
    MessageParams { role: WrapperRole::System, content, name: None }
}

/// Builds the request for a summary of a history.
pub fn build_summary_request(
    system: &String,
    history: &Vec<ContextMessage>,
    tokens_for_summary: Tokens,
) -> (built: Result<Vec<MessageParams>, WeaveError>)
    ensures
        roles_known(message_views(history@)) ==> built is Ok && params_views(built->Ok_0@)
            == summary_request(system@, message_views(history@), tokens_for_summary as nat),
        !roles_known(message_views(history@)) ==> built is Err && built->Err_0 is InvalidRole
            && exists|i: int| #[trigger]
            first_unknown_role(message_views(history@), i) && built->Err_0->InvalidRole_0@
                == history@[i].role@,
{
    match assemble(history) {
        Ok(mut middle) => {
            let mut request: Vec<MessageParams> = Vec::new();
            request.push(system_message(system.clone()));
            request.append(&mut middle);
            request.push(system_message(summary_directive_text(words_for(tokens_for_summary))));
            assert(params_views(request@) =~= summary_request(
                system@,
                message_views(history@),
                tokens_for_summary as nat,
            ));
            Ok(request)
        },
        Err(e) => Err(e),
    }
}

/// Builds the request for a response to a user message, after a history.
pub fn build_response_request(
    system: &String,
    history: &Vec<ContextMessage>,
    account_id: &String,
    msg: &String,
    max_output_tokens: Tokens,
) -> (built: Result<Vec<MessageParams>, WeaveError>)
    ensures
        roles_known(message_views(history@)) ==> built is Ok && params_views(built->Ok_0@)
            == response_request(
            system@,
            message_views(history@),
            account_id@,
            msg@,
            max_output_tokens as nat,
        ),
        !roles_known(message_views(history@)) ==> built is Err && built->Err_0 is InvalidRole
            && exists|i: int| #[trigger]
            first_unknown_role(message_views(history@), i) && built->Err_0->InvalidRole_0@
                == history@[i].role@,
{
    match assemble(history) {
        Ok(mut middle) => {
            let mut request: Vec<MessageParams> = Vec::new();
            request.push(system_message(system.clone()));
            request.append(&mut middle);
            request.push(
                MessageParams {
                    role: WrapperRole::User,
                    content: msg.clone(),
                    name: Some(account_id.clone()),
                },
            );
            request.push(system_message(response_directive_text(words_for(max_output_tokens))));
            assert(params_views(request@) =~= response_request(
                system@,
                message_views(history@),
                account_id@,
                msg@,
                max_output_tokens as nat,
            ));
            Ok(request)
        },
        Err(e) => Err(e),
    }
}

} // verus!
