use vstd::prelude::*;

use crate::error::ContractError;
use crate::msg::{DepositMsg, QueryMsg, WithdrawMsg};
use crate::reserves::{deposit, deposit_outcome, withdraw, withdraw_outcome};
use crate::state::{get_state, stored_or_default, State};

verus! {

/// Handles a deposit request against what the store held under the record's
/// key. On `Ok` the result is the record to store; on `Err` nothing is to be
/// stored.
pub fn execute_deposit(stored: Option<State>, msg: &DepositMsg) -> (r: Result<State, ContractError>)
    ensures
        r == deposit_outcome(stored_or_default(stored), msg.tokens),
{
    let state = get_state(stored);
    deposit(&state, msg.tokens)
}

/// Handles a withdrawal request against what the store held under the
/// record's key. On `Ok` the result is the record to store; on `Err` nothing
/// is to be stored.
pub fn execute_withdraw(stored: Option<State>, msg: &WithdrawMsg) -> (r: Result<State, ContractError>)
    ensures
        r == withdraw_outcome(stored_or_default(stored), msg.tokens),
{
    let state = get_state(stored);
    withdraw(&state, msg.tokens)
}

/// Answers a query from what the store held under the record's key. A record
/// that was never written reads as all zero.
pub fn query_state(stored: Option<State>, msg: &QueryMsg) -> (r: State)
    ensures
        r == stored_or_default(stored),
{
    match msg {
        QueryMsg::State {} => get_state(stored),
    }
}

} // verus!
