//! Token budgets: the reserved slice of the context window, what is left of
//! it for a summary or a response, and the directives that tell the model how
//! many words it may use.

use vstd::prelude::*;
use crate::models::Tokens;
use crate::types::WeaveError;

verus! {

/// A share between nothing and all, held exactly as a ratio of two integers.
#[derive(Clone, Copy, Debug)]
pub struct Fraction {
    numerator: u32,
    denominator: u32,
}

impl Fraction {
    /// The denominator is positive and the numerator does not exceed it.
    #[verifier::type_invariant]
    pub closed spec fn wf(self) -> bool {
        0 < self.denominator && self.numerator <= self.denominator
    }

    pub closed spec fn spec_numerator(self) -> nat {
        self.numerator as nat
    }

    pub closed spec fn spec_denominator(self) -> nat {
        self.denominator as nat
    }

    /// The share of an amount, rounded down.
    pub open spec fn of(self, amount: nat) -> nat {
        amount * self.spec_numerator() / self.spec_denominator()
    }

    /// The ratio `numerator / denominator`, if it lies between 0 and 1.
    pub fn new(numerator: u32, denominator: u32) -> (fraction: Option<Fraction>)
        ensures
            fraction is Some <==> 0 < denominator && numerator <= denominator,
            fraction is Some ==> fraction.unwrap().wf() && fraction.unwrap().spec_numerator()
                == numerator && fraction.unwrap().spec_denominator() == denominator,
    {
        if 0 < denominator && numerator <= denominator {
            Some(Fraction { numerator, denominator })
        } else {
            None
        }
    }

    /// One tenth.
    pub fn tenth() -> (fraction: Fraction)
        ensures
            fraction.wf(),
            fraction.spec_numerator() == 1,
            fraction.spec_denominator() == 10,
    {
        Fraction { numerator: 1, denominator: 10 }
    }

    pub fn numerator(&self) -> (n: u32)
        ensures
            n == self.spec_numerator(),
    {
        self.numerator
    }

    pub fn denominator(&self) -> (d: u32)
        ensures
            d == self.spec_denominator(),
            d > 0,
    {
        proof {
            use_type_invariant(self);
        }
        self.denominator
    }

    /// The share of an amount of tokens, rounded down.
    pub fn apply(&self, amount: Tokens) -> (share: Tokens)
        ensures
            share == self.of(amount as nat),
            share <= amount,
    {
        proof {
            use_type_invariant(self);
            lemma_share_bounded(
                amount as nat,
                self.numerator as nat,
                self.denominator as nat,
            );
        }
        assert((amount as u128) * (self.numerator as u128) <= 0xffff_ffff_ffff_ffff
            * 0xffff_ffff) by (nonlinear_arith)
            requires
                amount <= 0xffff_ffff_ffff_ffff,
                self.numerator <= 0xffff_ffff,
        ;
        let product: u128 = (amount as u128) * (self.numerator as u128);
        let share: u128 = product / (self.denominator as u128);
        share as u64
    }
}

/// A share of an amount is at most the amount.
pub proof fn lemma_share_bounded(amount: nat, numerator: nat, denominator: nat)
    requires
        0 < denominator,
        numerator <= denominator,
    ensures
        amount * numerator / denominator <= amount,
        amount * numerator <= amount * denominator,
{
    assert(amount * numerator <= amount * denominator) by (nonlinear_arith)
        requires
            numerator <= denominator,
    ;
    assert(amount * numerator / denominator <= amount) by (nonlinear_arith)
        requires
            0 < denominator,
            amount * numerator <= amount * denominator,
    ;
}

/// Words per token, as the ratio 3 to 4.
pub open spec fn word_ceiling(tokens: nat) -> nat {
    tokens * 3 / 4
}

/// The number of words that fit into a number of tokens, rounded down.
pub fn words_for(tokens: Tokens) -> (words: Tokens)
    ensures
        words == word_ceiling(tokens as nat),
{
    let quarters: u64 = tokens / 4;
    let rest: u64 = tokens % 4;
    quarters * 3 + rest * 3 / 4
}

/// The character of one decimal digit.
pub open spec fn digit(d: nat) -> char
    recommends
        d < 10,
{
    if d == 0 {
        '0'
    } else if d == 1 {
        '1'
    } else if d == 2 {
        '2'
    } else if d == 3 {
        '3'
    } else if d == 4 {
        '4'
    } else if d == 5 {
        '5'
    } else if d == 6 {
        '6'
    } else if d == 7 {
        '7'
    } else if d == 8 {
        '8'
    } else {
        '9'
    }
}

/// A number in decimal notation, without leading zeros.
pub open spec fn decimal(n: nat) -> Seq<char>
    decreases n,
{
    if n < 10 {
        seq![digit(n)]
    } else {
        decimal(n / 10).push(digit(n % 10))
    }
}

fn digit_text(d: u64) -> (text: &'static str)
    requires
        d < 10,
    ensures
        text@ == seq![digit(d as nat)],
{
    proof {
        reveal_strlit("0");
        reveal_strlit("1");
        reveal_strlit("2");
        reveal_strlit("3");
        reveal_strlit("4");
        reveal_strlit("5");
        reveal_strlit("6");
        reveal_strlit("7");
        reveal_strlit("8");
        reveal_strlit("9");
    }
    let text = if d == 0 {
        "0"
    } else if d == 1 {
        "1"
    } else if d == 2 {
        "2"
    } else if d == 3 {
        "3"
    } else if d == 4 {
        "4"
    } else if d == 5 {
        "5"
    } else if d == 6 {
        "6"
    } else if d == 7 {
        "7"
    } else if d == 8 {
        "8"
    } else {
        "9"
    };
    assert(text@ =~= seq![digit(d as nat)]);
    text
}

/// Appends a number in decimal notation to a text.
pub fn append_decimal(out: &mut String, n: u64)
    ensures
        final(out)@ == old(out)@ + decimal(n as nat),
    decreases n,
{
    if n >= 10 {
        append_decimal(out, n / 10);
    }
    out.append(digit_text(n % 10));
    assert(out@ =~= old(out)@ + decimal(n as nat));
}

/// The directive that closes a request for a response.
pub open spec fn response_directive(words: nat) -> Seq<char> {
    "Respond with "@ + decimal(words) + " words or less"@
}

/// The directive that closes a request for a summary.
pub open spec fn summary_directive(words: nat) -> Seq<char> {
    "Generate a summary of the entire adventure so far. Respond with "@ + decimal(words)
        + " words or less"@
}

/// Writes the directive that closes a request for a response.
pub fn response_directive_text(words: Tokens) -> (text: String)
    ensures
        text@ == response_directive(words as nat),
{
    let mut text = String::from_str("Respond with ");
    append_decimal(&mut text, words);
    text.append(" words or less");
    text
}

/// Writes the directive that closes a request for a summary.
pub fn summary_directive_text(words: Tokens) -> (text: String)
    ensures
        text@ == summary_directive(words as nat),
{
    let mut text = String::from_str(
        "Generate a summary of the entire adventure so far. Respond with ",
    );
    append_decimal(&mut text, words);
    text.append(" words or less");
    text
}

/// Compaction is due when the fragment and the incoming message together
/// reach the reservation.
pub open spec fn needs_compaction(reservation: nat, fragment_tokens: nat, incoming: nat) -> bool {
    reservation <= fragment_tokens + incoming
}

/// The tokens a summary may take: what the fragment leaves of the
/// reservation, and nothing where it leaves nothing.
pub open spec fn summary_budget(reservation: nat, fragment_tokens: nat) -> nat {
    if fragment_tokens <= reservation {
        (reservation - fragment_tokens) as nat
    } else {
        0
    }
}

/// The tokens a response may take: what the fragment and the incoming message
/// leave of the reservation. It may be negative.
pub open spec fn response_budget(reservation: nat, fragment_tokens: nat, incoming: nat) -> int {
    reservation - fragment_tokens - incoming
}

/// What a turn does with the fragment it loaded.
#[derive(Debug, Clone, Copy, PartialEq, Eq, Structural)]
pub enum Plan {
    /// The fragment is kept, and the response may take this many tokens.
    Generate { max_output_tokens: Tokens },
    /// The fragment is compacted first, into a summary of at most this many
    /// tokens.
    Summarize { tokens_for_summary: Tokens },
}

/// Decides whether a turn compacts the fragment, and sizes the next request.
pub fn plan_turn(reservation: Tokens, fragment_tokens: Tokens, incoming: Tokens) -> (plan: Plan)
    ensures
        needs_compaction(reservation as nat, fragment_tokens as nat, incoming as nat) ==> plan
            == (Plan::Summarize {
            tokens_for_summary: summary_budget(reservation as nat, fragment_tokens as nat) as u64,
        }),
        !needs_compaction(reservation as nat, fragment_tokens as nat, incoming as nat) ==> plan
            == (Plan::Generate {
            max_output_tokens: response_budget(
                reservation as nat,
                fragment_tokens as nat,
                incoming as nat,
            ) as u64,
        }) && plan->max_output_tokens > 0,
{
    if fragment_tokens >= reservation {
        Plan::Summarize { tokens_for_summary: 0 }
    } else if incoming >= reservation - fragment_tokens {
        Plan::Summarize { tokens_for_summary: reservation - fragment_tokens }
    } else {
        Plan::Generate { max_output_tokens: reservation - fragment_tokens - incoming }
    }
}

/// The tokens a response may take, or `BudgetExhausted` where none are left.
pub fn response_tokens(reservation: Tokens, fragment_tokens: Tokens, incoming: Tokens) -> (budget:
    Result<Tokens, WeaveError>)
    ensures
        response_budget(reservation as nat, fragment_tokens as nat, incoming as nat) > 0
            ==> budget == Ok::<Tokens, WeaveError>(
            response_budget(reservation as nat, fragment_tokens as nat, incoming as nat) as u64,
        ),
        response_budget(reservation as nat, fragment_tokens as nat, incoming as nat) <= 0
            ==> budget == Err::<Tokens, WeaveError>(WeaveError::BudgetExhausted),
{
    if fragment_tokens >= reservation || incoming >= reservation - fragment_tokens {
        Err(WeaveError::BudgetExhausted)
    } else {
        Ok(reservation - fragment_tokens - incoming)
    }
}

} // verus!
