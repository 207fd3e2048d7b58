use vstd::prelude::*;

use crate::error::ContractError;
use crate::reserves::{deposit_outcome, proportional_share, withdraw_outcome};
use crate::state::State;

verus! {

/// A share of at most the whole is at most the other side: for
/// `amount <= denom`, `floor(amount * numer / denom) <= numer`.
pub proof fn lemma_share_within_reserve(amount: int, numer: int, denom: int)
    requires
        0 <= amount <= denom,
        0 <= numer,
        0 < denom,
    ensures
        0 <= proportional_share(amount, numer, denom) <= numer,
{
    assert(0 <= amount * numer <= denom * numer) by (nonlinear_arith)
        requires
            0 <= amount <= denom,
            0 <= numer,
    ;
    assert(0 <= amount * numer / denom <= numer) by (nonlinear_arith)
        requires
            0 <= amount * numer <= denom * numer,
            0 < denom,
    ;
}

/// A share of nonnegative amounts over a positive divisor is nonnegative.
pub proof fn lemma_share_nonnegative(amount: int, numer: int, denom: int)
    requires
        0 <= amount,
        0 <= numer,
        0 < denom,
    ensures
        0 <= proportional_share(amount, numer, denom),
{
    assert(0 <= amount * numer / denom) by (nonlinear_arith)
        requires
            0 <= amount,
            0 <= numer,
            0 < denom,
    ;
}

/// A deposit keeps the pool's ratio: when both reserves are positive and no
/// step overflows, the deposit succeeds, the token reserve grows by `tokens`
/// and the base reserve by exactly `floor(tokens * base / token)`.
pub proof fn lemma_deposit_keeps_ratio(s: State, tokens: u64)
    requires
        s.token_reserve > 0,
        s.base_reserve > 0,
        tokens > 0,
        tokens * s.base_reserve <= u64::MAX,
        s.token_reserve + tokens <= u64::MAX,
        s.base_reserve + proportional_share(
            tokens as int,
            s.base_reserve as int,
            s.token_reserve as int,
        ) <= u64::MAX,
    ensures
        deposit_outcome(s, tokens) is Ok,
        deposit_outcome(s, tokens)->Ok_0.base_reserve - s.base_reserve == proportional_share(
            tokens as int,
            s.base_reserve as int,
            s.token_reserve as int,
        ),
        deposit_outcome(s, tokens)->Ok_0.token_reserve - s.token_reserve == tokens,
{
    lemma_share_nonnegative(tokens as int, s.base_reserve as int, s.token_reserve as int);
}

/// A deposit never makes either reserve smaller.
pub proof fn lemma_deposit_never_shrinks(s: State, tokens: u64)
    ensures
        deposit_outcome(s, tokens) is Ok ==> {
            &&& deposit_outcome(s, tokens)->Ok_0.token_reserve >= s.token_reserve
            &&& deposit_outcome(s, tokens)->Ok_0.base_reserve >= s.base_reserve
        },
{
    if s.token_reserve > 0 {
        lemma_share_nonnegative(tokens as int, s.base_reserve as int, s.token_reserve as int);
    }
}

/// A withdrawal from a pool with a nonzero base reserve fails with an
/// underflow exactly when `tokens` exceeds the base reserve or the matching
/// share exceeds the token reserve; when it succeeds, neither reserve grows.
pub proof fn lemma_withdraw_bounds(s: State, tokens: u64)
    requires
        s.base_reserve > 0,
    ensures
        (withdraw_outcome(s, tokens) == Err::<State, ContractError>(
            ContractError::ArithmeticUnderflow,
        )) <==> (tokens > s.base_reserve || proportional_share(
            tokens as int,
            s.token_reserve as int,
            s.base_reserve as int,
        ) > s.token_reserve),
        withdraw_outcome(s, tokens) is Ok ==> {
            &&& withdraw_outcome(s, tokens)->Ok_0.token_reserve <= s.token_reserve
            &&& withdraw_outcome(s, tokens)->Ok_0.base_reserve <= s.base_reserve
        },
{
    if tokens <= s.base_reserve {
        lemma_share_within_reserve(tokens as int, s.token_reserve as int, s.base_reserve as int);
    }
}

/// A zero divisor is reported, never trapped on: a deposit into a pool with
/// no token reserve, and a withdrawal from one with no base reserve, fail
/// with `DivisionByZero`.
pub proof fn lemma_zero_reserve_guard(s: State, tokens: u64)
    ensures
        s.token_reserve == 0 ==> deposit_outcome(s, tokens) == Err::<State, ContractError>(
            ContractError::DivisionByZero,
        ),
        s.base_reserve == 0 ==> withdraw_outcome(s, tokens) == Err::<State, ContractError>(
            ContractError::DivisionByZero,
        ),
{
}

} // verus!
