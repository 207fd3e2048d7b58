use vstd::prelude::*;

use crate::error::ContractError;
use crate::state::State;

verus! {

/// `floor(amount * numer / denom)`: the share of `numer` that matches
/// `amount` at the ratio `numer / denom`.
pub open spec fn proportional_share(amount: int, numer: int, denom: int) -> int {
    amount * numer / denom
}

/// What a deposit of `tokens` does to `s`: the token reserve grows by
/// `tokens`, the base reserve by the proportional share of it, each step
/// checked for a zero divisor and for overflow.
pub open spec fn deposit_outcome(s: State, tokens: u64) -> Result<State, ContractError> {
    if s.token_reserve == 0 {
        Err(ContractError::DivisionByZero)
    } else if tokens * s.base_reserve > u64::MAX {
        Err(ContractError::ArithmeticOverflow)
    } else {
        let added = proportional_share(tokens as int, s.base_reserve as int, s.token_reserve as int);
        if s.token_reserve + tokens > u64::MAX || s.base_reserve + added > u64::MAX {
            Err(ContractError::ArithmeticOverflow)
        } else {
            Ok(
                State {
                    token_reserve: (s.token_reserve + tokens) as u64,
                    base_reserve: (s.base_reserve + added) as u64,
                    price_range_min: s.price_range_min,
                    price_range_max: s.price_range_max,
                },
            )
        }
    }
}

/// What a withdrawal of `tokens` of the base side does to `s`: the base
/// reserve shrinks by `tokens`, the token reserve by the proportional share
/// of it, each step checked for a zero divisor, underflow and overflow.
pub open spec fn withdraw_outcome(s: State, tokens: u64) -> Result<State, ContractError> {
    if s.base_reserve == 0 {
        Err(ContractError::DivisionByZero)
    } else if tokens > s.base_reserve {
        Err(ContractError::ArithmeticUnderflow)
    } else if tokens * s.token_reserve > u64::MAX {
        Err(ContractError::ArithmeticOverflow)
    } else {
        let removed = proportional_share(tokens as int, s.token_reserve as int, s.base_reserve as int);
        if removed > s.token_reserve {
            Err(ContractError::ArithmeticUnderflow)
        } else {
            Ok(
                State {
                    token_reserve: (s.token_reserve - removed) as u64,
                    base_reserve: (s.base_reserve - tokens) as u64,
                    price_range_min: s.price_range_min,
                    price_range_max: s.price_range_max,
                },
            )
        }
    }
}

/// Adds `tokens` to the token reserve and the matching share to the base
/// reserve. The given record is not changed; on failure no new one exists.
pub fn deposit(state: &State, tokens: u64) -> (r: Result<State, ContractError>)
    ensures
        r == deposit_outcome(*state, tokens),
{
    if state.token_reserve == 0 {
        return Err(ContractError::DivisionByZero);
    }
    let product = match tokens.checked_mul(state.base_reserve) {
        Some(p) => p,
        None => return Err(ContractError::ArithmeticOverflow),
    };
    let base_added = product / state.token_reserve;
    let token_reserve = match state.token_reserve.checked_add(tokens) {
        Some(v) => v,
        None => return Err(ContractError::ArithmeticOverflow),
    };
    let base_reserve = match state.base_reserve.checked_add(base_added) {
        Some(v) => v,
        None => return Err(ContractError::ArithmeticOverflow),
    };
    Ok(
        State {
            token_reserve,
            base_reserve,
            price_range_min: state.price_range_min,
            price_range_max: state.price_range_max,
        },
    )
}

/// Takes `tokens` from the base reserve and the matching share from the
/// token reserve. The given record is not changed; on failure no new one
/// exists.
pub fn withdraw(state: &State, tokens: u64) -> (r: Result<State, ContractError>)
    ensures
        r == withdraw_outcome(*state, tokens),
{
    if state.base_reserve == 0 {
        return Err(ContractError::DivisionByZero);
    }
    if tokens > state.base_reserve {
        return Err(ContractError::ArithmeticUnderflow);
    }
    let product = match tokens.checked_mul(state.token_reserve) {
        Some(p) => p,
        None => return Err(ContractError::ArithmeticOverflow),
    };
    let tokens_removed = product / state.base_reserve;
    let token_reserve = match state.token_reserve.checked_sub(tokens_removed) {
        Some(v) => v,
        None => return Err(ContractError::ArithmeticUnderflow),
    };
    let base_reserve = match state.base_reserve.checked_sub(tokens) {
        Some(v) => v,
        None => return Err(ContractError::ArithmeticUnderflow),
    };
    Ok(
        State {
            token_reserve,
            base_reserve,
            price_range_min: state.price_range_min,
            price_range_max: state.price_range_max,
        },
    )
}

} // verus!
