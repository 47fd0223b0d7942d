//! Messages and fragments: the stored history of a conversation.

use vstd::prelude::*;
use crate::models::{countable, p50k_token_count, Token, Tokens};
use crate::types::WrapperRole;

verus! {

/// Context message that represents a single message in a [`TapestryFragment`].
#[derive(Debug, PartialEq, Eq)]
pub struct ContextMessage {
    /// The name of the role: `system`, `user`, `assistant` or `function`.
    pub role: String,
    /// Who wrote the message. Empty for system and function messages.
    pub account_id: String,
    pub content: String,
    /// When the message was created.
    pub timestamp: String,
}

/// What a [`ContextMessage`] holds.
pub struct ContextMessageView {
    pub role: Seq<char>,
    pub account_id: Seq<char>,
    pub content: Seq<char>,
    pub timestamp: Seq<char>,
}

impl View for ContextMessage {
    type V = ContextMessageView;

    open spec fn view(&self) -> ContextMessageView {
        ContextMessageView {
            role: self.role@,
            account_id: self.account_id@,
            content: self.content@,
            timestamp: self.timestamp@,
        }
    }
}

impl Clone for ContextMessage {
    fn clone(&self) -> (copy: ContextMessage)
        ensures
            copy == *self,
    {
        ContextMessage {
            role: self.role.clone(),
            account_id: self.account_id.clone(),
            content: self.content.clone(),
            timestamp: self.timestamp.clone(),
        }
    }
}

impl Default for ContextMessage {
    fn default() -> (message: ContextMessage)
        ensures
            message@ == (ContextMessageView {
                role: Seq::<char>::empty(),
                account_id: Seq::<char>::empty(),
                content: Seq::<char>::empty(),
                timestamp: Seq::<char>::empty(),
            }),
    {
        ContextMessage {
            role: String::new(),
            account_id: String::new(),
            content: String::new(),
            timestamp: String::new(),
        }
    }
}

impl ContextMessage {
    /// A message with the given role, author, content and creation time.
    pub fn new(
        role: WrapperRole,
        account_id: String,
        content: String,
        timestamp: String,
    ) -> (message: ContextMessage)
        ensures
            message@ == (ContextMessageView {
                role: role.spec_name(),
                account_id: account_id@,
                content: content@,
                timestamp: timestamp@,
            }),
    {
        ContextMessage { role: String::from_str(role.name()), account_id, content, timestamp }
    }
}

impl ContextMessageView {
    /// The message has this role, author and content, whenever it was created.
    pub open spec fn says(
        self,
        role: WrapperRole,
        account_id: Seq<char>,
        content: Seq<char>,
    ) -> bool {
        self.role == role.spec_name() && self.account_id == account_id && self.content == content
    }
}

/// What each of a list of messages holds.
pub open spec fn message_views(messages: Seq<ContextMessage>) -> Seq<ContextMessageView> {
    messages.map_values(|m: ContextMessage| m@)
}

/// The tokens of the contents of a list of messages, added up.
pub open spec fn content_tokens(messages: Seq<ContextMessageView>) -> nat
    decreases messages.len(),
{
    if messages.len() == 0 {
        0
    } else {
        content_tokens(messages.drop_last()) + p50k_token_count(messages.last().content)
    }
}

/// One more message adds the tokens of its content.
pub proof fn lemma_content_tokens_push(
    messages: Seq<ContextMessageView>,
    message: ContextMessageView,
)
    ensures
        content_tokens(messages.push(message)) == content_tokens(messages) + p50k_token_count(
            message.content,
        ),
{
    assert(messages.push(message).drop_last() =~= messages);
}

/// Part of a list of messages holds at most the tokens of the whole list.
pub proof fn lemma_content_tokens_prefix(messages: Seq<ContextMessageView>, n: int)
    requires
        0 <= n <= messages.len(),
    ensures
        content_tokens(messages.subrange(0, n)) <= content_tokens(messages),
    decreases messages.len() - n,
{
    if n < messages.len() {
        lemma_content_tokens_prefix(messages, n + 1);
        assert(messages.subrange(0, n + 1).drop_last() =~= messages.subrange(0, n));
    } else {
        assert(messages.subrange(0, n) =~= messages);
    }
}

/// The content of every message is short enough to be counted.
pub open spec fn all_countable(messages: Seq<ContextMessageView>) -> bool {
    forall|i: int| 0 <= i < messages.len() ==> countable(#[trigger] messages[i].content)
}

/// A text can be counted, and a total can take its tokens.
pub open spec fn fits(total: nat, text: Seq<char>) -> bool {
    countable(text) && total + p50k_token_count(text) <= u64::MAX
}

/// Represents a single part of a conversation: a list of messages along with
/// the number of tokens they hold.
///
/// A model takes only a limited number of tokens in one request. When a
/// fragment no longer fits, a summary of it starts the next fragment.
#[derive(Debug, PartialEq, Eq)]
pub struct TapestryFragment {
    /// Total number of tokens in the fragment.
    pub context_tokens: Tokens,
    /// List of [`ContextMessage`]s in the fragment.
    pub context_messages: Vec<ContextMessage>,
}

/// What a [`TapestryFragment`] holds.
pub struct TapestryFragmentView {
    pub context_tokens: nat,
    pub context_messages: Seq<ContextMessageView>,
}

impl TapestryFragmentView {
    /// The total is the sum of the tokens of the messages' contents.
    pub open spec fn is_balanced(self) -> bool {
        self.context_tokens == content_tokens(self.context_messages)
    }

    /// The fragment without messages.
    pub open spec fn empty() -> TapestryFragmentView {
        TapestryFragmentView { context_tokens: 0, context_messages: Seq::empty() }
    }

    /// The fragment with one more message, which adds `tokens` to the total.
    pub open spec fn with_message(
        self,
        message: ContextMessageView,
        tokens: nat,
    ) -> TapestryFragmentView {
        TapestryFragmentView {
            context_tokens: self.context_tokens + tokens,
            context_messages: self.context_messages.push(message),
        }
    }
}

impl View for TapestryFragment {
    type V = TapestryFragmentView;

    open spec fn view(&self) -> TapestryFragmentView {
        TapestryFragmentView {
            context_tokens: self.context_tokens as nat,
            context_messages: message_views(self.context_messages@),
        }
    }
}

impl Default for TapestryFragment {
    fn default() -> (fragment: TapestryFragment)
        ensures
            fragment@ == TapestryFragmentView::empty(),
            fragment@.is_balanced(),
    {
        let fragment = TapestryFragment { context_tokens: 0, context_messages: Vec::new() };
        assert(fragment@.context_messages =~= Seq::empty());
        fragment
    }
}

impl Clone for TapestryFragment {
    fn clone(&self) -> (copy: TapestryFragment)
        ensures
            copy@ == self@,
    {
        let mut messages: Vec<ContextMessage> = Vec::new();
        let mut i: usize = 0;
        while i < self.context_messages.len()
            invariant
                i <= self.context_messages.len(),
                messages@ == self.context_messages@.subrange(0, i as int),
            decreases self.context_messages.len() - i,
        {
            messages.push(self.context_messages[i].clone());
            assert(messages@ =~= self.context_messages@.subrange(0, i + 1));
            i += 1;
        }
        assert(messages@ =~= self.context_messages@);
        TapestryFragment { context_tokens: self.context_tokens, context_messages: messages }
    }
}

impl TapestryFragment {
    /// The total is the sum of the tokens of the messages' contents.
    pub open spec fn is_balanced(&self) -> bool {
        self@.is_balanced()
    }

    /// The fragment of a conversation that has not begun.
    pub fn new() -> (fragment: TapestryFragment)
        ensures
            fragment@ == TapestryFragmentView::empty(),
            fragment@.is_balanced(),
    {
        TapestryFragment::default()
    }

    /// Appends a message whose content holds `tokens` tokens.
    pub fn push_counted(&mut self, message: ContextMessage, tokens: Tokens)
        requires
            old(self).context_tokens + tokens <= u64::MAX,
        ensures
            final(self)@ == old(self)@.with_message(message@, tokens as nat),
            old(self)@.is_balanced() && tokens == p50k_token_count(message@.content)
                ==> final(self)@.is_balanced(),
    {
        proof {
            lemma_content_tokens_push(old(self)@.context_messages, message@);
        }
        self.context_tokens = self.context_tokens + tokens;
        self.context_messages.push(message);
        assert(self@.context_messages =~= old(self)@.context_messages.push(message@));
    }

    /// Counts the tokens of a message and appends it. Where the content is
    /// too long to be counted, or the total would no longer fit its type, the
    /// fragment stays as it is and the message comes back.
    pub fn push(&mut self, message: ContextMessage) -> (rejected: Option<ContextMessage>)
        ensures
            fits(old(self)@.context_tokens, message@.content) ==> rejected is None && final(self)@
                == old(self)@.with_message(message@, p50k_token_count(message@.content)),
            !fits(old(self)@.context_tokens, message@.content) ==> rejected == Some(message)
                && *final(self) == *old(self),
            old(self)@.is_balanced() ==> final(self)@.is_balanced(),
    {
        match message.content.count_tokens() {
            Some(tokens) => {
                if tokens <= u64::MAX - self.context_tokens {
                    self.push_counted(message, tokens);
                    None
                } else {
                    Some(message)
                }
            },
            None => Some(message),
        }
    }

    /// Counts the tokens of the contents of all messages anew: what the total
    /// of a balanced fragment is. Gives nothing where a content is too long
    /// to be counted or the sum does not fit its type.
    pub fn recount(&self) -> (sum: Option<Tokens>)
        ensures
            all_countable(self@.context_messages) && content_tokens(self@.context_messages)
                <= u64::MAX ==> sum == Some(content_tokens(self@.context_messages) as u64),
            !all_countable(self@.context_messages) || content_tokens(self@.context_messages)
                > u64::MAX ==> sum is None,
    {
        let ghost views = self@.context_messages;
        let mut sum: Tokens = 0;
        let mut i: usize = 0;
        while i < self.context_messages.len()
            invariant
                i <= self.context_messages.len(),
                views == message_views(self.context_messages@),
                all_countable(views.subrange(0, i as int)),
                sum as nat == content_tokens(views.subrange(0, i as int)),
            decreases self.context_messages.len() - i,
        {
            assert(views[i as int] == self.context_messages@[i as int]@);
            proof {
                lemma_content_tokens_push(views.subrange(0, i as int), views[i as int]);
                lemma_content_tokens_prefix(views, i + 1);
                assert(views.subrange(0, i + 1) =~= views.subrange(0, i as int).push(
                    views[i as int],
                ));
            }
            match self.context_messages[i].content.count_tokens() {
                Some(tokens) => {
                    if tokens > u64::MAX - sum {
                        return None;
                    }
                    sum = sum + tokens;
                },
                None => {
                    return None;
                },
            }
            i += 1;
        }
        assert(views.subrange(0, i as int) =~= views);
        Some(sum)
    }

    /// The fragment that a compaction starts: the system instruction and the
    /// summary, both as system messages, with the summary's tokens as total.
    pub fn compacted(
        system: String,
        summary: String,
        summary_tokens: Tokens,
        system_timestamp: String,
        summary_timestamp: String,
    ) -> (fragment: TapestryFragment)
        ensures
            fragment@ == compacted_view(
                system@,
                summary@,
                summary_tokens as nat,
                system_timestamp@,
                summary_timestamp@,
            ),
    {
        let mut messages: Vec<ContextMessage> = Vec::new();
        messages.push(
            ContextMessage::new(WrapperRole::System, String::new(), system, system_timestamp),
        );
        messages.push(
            ContextMessage::new(WrapperRole::System, String::new(), summary, summary_timestamp),
        );
        let fragment = TapestryFragment {
            context_tokens: summary_tokens,
            context_messages: messages,
        };
        assert(fragment@.context_messages =~= compacted_view(
            system@,
            summary@,
            summary_tokens as nat,
            system_timestamp@,
            summary_timestamp@,
        ).context_messages);
        fragment
    }
}

/// What the fragment that a compaction starts holds.
pub open spec fn compacted_view(
    system: Seq<char>,
    summary: Seq<char>,
    summary_tokens: nat,
    system_timestamp: Seq<char>,
    summary_timestamp: Seq<char>,
) -> TapestryFragmentView {
    TapestryFragmentView {
        context_tokens: summary_tokens,
        context_messages: seq![
            ContextMessageView {
                role: WrapperRole::System.spec_name(),
                account_id: Seq::empty(),
                content: system,
                timestamp: system_timestamp,
            },
            ContextMessageView {
                role: WrapperRole::System.spec_name(),
                account_id: Seq::empty(),
                content: summary,
                timestamp: summary_timestamp,
            },
        ],
    }
}

/// A compacted fragment counts the summary alone. Its total is the sum over
/// its messages exactly when the system instruction holds no tokens.
pub proof fn lemma_compacted_balance(
    system: Seq<char>,
    summary: Seq<char>,
    system_timestamp: Seq<char>,
    summary_timestamp: Seq<char>,
)
    ensures
        content_tokens(
            compacted_view(
                system,
                summary,
                p50k_token_count(summary),
                system_timestamp,
                summary_timestamp,
            ).context_messages,
        ) == p50k_token_count(system) + p50k_token_count(summary),
        compacted_view(
            system,
            summary,
            p50k_token_count(summary),
            system_timestamp,
            summary_timestamp,
        ).is_balanced() <==> p50k_token_count(system) == 0,
{
    let messages = compacted_view(
        system,
        summary,
        p50k_token_count(summary),
        system_timestamp,
        summary_timestamp,
    ).context_messages;
    let first = messages.drop_last();
    assert(first.drop_last() =~= Seq::empty());
    assert(content_tokens(first.drop_last()) == 0);
    assert(content_tokens(first) == p50k_token_count(system));
}

} // verus!
