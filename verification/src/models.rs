//! The models that can be prompted, and the token counter.

use vstd::prelude::*;

verus! {

/// A number of tokens, the unit in which a model's context window is measured.
pub type Tokens = u64;

/// A source of one fixed value, chosen at compile time.
pub trait Get<T> {
    fn get() -> T;
}

/// The language models that are available to use.
#[derive(PartialEq, Eq, Clone, Copy, Debug, Structural)]
pub enum Models {
    GPT3,
    GPT4,
}

impl Models {
    /// The identifier under which the completion service knows the model.
    pub open spec fn spec_name(self) -> Seq<char> {
        match self {
            Models::GPT3 => "gpt-3.5-turbo"@,
            Models::GPT4 => "gpt-4"@,
        }
    }

    /// The largest number of tokens the model can process in one request.
    pub open spec fn spec_max_context_tokens(self) -> nat {
        match self {
            Models::GPT3 => 4096,
            Models::GPT4 => 8192,
        }
    }

    /// Get the model name.
    pub fn name(&self) -> (name: &'static str)
        ensures
            name@ == self.spec_name(),
    {
        match self {
            Models::GPT3 => "gpt-3.5-turbo",
            Models::GPT4 => "gpt-4",
        }
    }

    /// Maximum number of tokens that can be processed at once by the model.
    pub fn max_context_tokens(&self) -> (max: Tokens)
        ensures
            max == self.spec_max_context_tokens(),
    {
        match self {
            Models::GPT3 => 4096,
            Models::GPT4 => 8192,
        }
    }
}

/// Selects [`Models::GPT3`].
pub struct DefaultModel;

impl Get<Models> for DefaultModel {
    fn get() -> (model: Models)
        ensures
            model == Models::GPT3,
    {
        Models::GPT3
    }
}

/// The longest text, in characters, whose tokens are counted.
pub const MAX_COUNTED_CHARS: usize = 500_000;

/// Whether a text is short enough for its tokens to be counted.
pub open spec fn countable(text: Seq<char>) -> bool {
    text.len() <= MAX_COUNTED_CHARS
}

/// The number of tokens into which the `p50k_base` byte-pair encoding splits a
/// text, special tokens included.
pub uninterp spec fn p50k_token_count(text: Seq<char>) -> nat;

/// Calls `tiktoken_rs::p50k_base` and `CoreBPE::encode_with_special_tokens`,
/// and takes the length of the encoding.
///
/// Trusted: the length is a function of the text alone. The tokenizer is built
/// from a table that is compiled into `tiktoken_rs`, and the encoding reads
/// nothing but that table and the text. Building it fails only where that
/// table cannot be read, whatever the text is.
///
/// The encoder splits the text with a backtracking regular expression and
/// panics where one match needs a million pending branches. A match holds at
/// most one branch for each character and a few more, so the texts admitted
/// here stay below that.
#[verifier::external_body]
fn p50k_encoded_len(text: &str) -> (len: usize)
    requires
        countable(text@),
    ensures
        len as nat == p50k_token_count(text@),
{
    tiktoken_rs::p50k_base().unwrap().encode_with_special_tokens(text).len()
}

/// Text whose tokens can be counted.
pub trait Token {
    /// The characters that are counted.
    spec fn token_text(&self) -> Seq<char>;

    /// Count the number of tokens in the text. A text of more than
    /// [`MAX_COUNTED_CHARS`] characters is not counted.
    fn count_tokens(&self) -> (tokens: Option<Tokens>)
        ensures
            countable(self.token_text()) ==> tokens is Some && tokens->Some_0 as nat
                == p50k_token_count(self.token_text()),
            !countable(self.token_text()) ==> tokens is None,
    ;
}

impl Token for String {
    open spec fn token_text(&self) -> Seq<char> {
        self@
    }

    fn count_tokens(&self) -> (tokens: Option<Tokens>) {
        if self.as_str().unicode_len() <= MAX_COUNTED_CHARS {
            let len: usize = p50k_encoded_len(self.as_str());
            Some(len as u64)
        } else {
            None
        }
    }
}

} // verus!
