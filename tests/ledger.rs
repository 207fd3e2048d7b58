use concentrated_liquidity_provisioning::contract::{execute_deposit, execute_withdraw, query_state};
use concentrated_liquidity_provisioning::error::ContractError;
use concentrated_liquidity_provisioning::msg::{DepositMsg, QueryMsg, WithdrawMsg};
use concentrated_liquidity_provisioning::reserves::{deposit, withdraw};
use concentrated_liquidity_provisioning::state::{get_state, State};

fn state(token_reserve: u64, base_reserve: u64) -> State {
    State { token_reserve, base_reserve, price_range_min: 0, price_range_max: 0 }
}

#[test]
fn deposit_adds_proportional_base() {
    let before = state(1000, 500);
    let after = deposit(&before, 100).unwrap();
    assert_eq!(after, state(1100, 550));
    assert_eq!(before, state(1000, 500));
}

#[test]
fn withdraw_removes_proportional_tokens() {
    let after = withdraw(&state(1100, 550), 55).unwrap();
    assert_eq!(after, state(990, 495));
}

#[test]
fn deposit_into_empty_token_side_is_division_by_zero() {
    let before = state(0, 500);
    assert_eq!(deposit(&before, 10), Err(ContractError::DivisionByZero));
    assert_eq!(before, state(0, 500));
}

#[test]
fn withdraw_beyond_base_is_underflow() {
    let before = state(100, 50);
    assert_eq!(withdraw(&before, 1000), Err(ContractError::ArithmeticUnderflow));
    assert_eq!(before, state(100, 50));
}

#[test]
fn withdraw_from_empty_base_side_is_division_by_zero() {
    assert_eq!(withdraw(&state(100, 0), 0), Err(ContractError::DivisionByZero));
    assert_eq!(withdraw(&state(100, 0), 5), Err(ContractError::DivisionByZero));
}

#[test]
fn deposit_rounds_share_down() {
    // 7 * 2 / 3 = 4.67, floored to 4
    let after = deposit(&state(3, 2), 7).unwrap();
    assert_eq!(after, state(10, 6));
    assert_eq!(after.base_reserve - 2, 7 * 2 / 3);
}

#[test]
fn deposit_of_zero_keeps_reserves() {
    assert_eq!(deposit(&state(40, 30), 0), Ok(state(40, 30)));
}

#[test]
fn deposit_never_shrinks_reserves() {
    let before = state(9, 1);
    let after = deposit(&before, 4).unwrap();
    assert!(after.token_reserve >= before.token_reserve);
    assert!(after.base_reserve >= before.base_reserve);
    assert_eq!(after, state(13, 1));
}

#[test]
fn withdraw_never_grows_reserves() {
    let before = state(7, 3);
    let after = withdraw(&before, 2).unwrap();
    assert_eq!(after, state(3, 1));
    assert!(after.token_reserve <= before.token_reserve);
    assert!(after.base_reserve <= before.base_reserve);
}

#[test]
fn withdraw_of_whole_base_empties_pool() {
    assert_eq!(withdraw(&state(1234, 617), 617), Ok(state(0, 0)));
}

#[test]
fn deposit_product_overflow() {
    assert_eq!(deposit(&state(1, u64::MAX), 2), Err(ContractError::ArithmeticOverflow));
}

#[test]
fn deposit_token_sum_overflow() {
    assert_eq!(deposit(&state(u64::MAX, 0), 1), Err(ContractError::ArithmeticOverflow));
}

#[test]
fn deposit_base_sum_overflow() {
    let before = state(1, u64::MAX - 1);
    assert_eq!(deposit(&before, 1), Err(ContractError::ArithmeticOverflow));
}

#[test]
fn withdraw_product_overflow() {
    assert_eq!(withdraw(&state(u64::MAX, u64::MAX), 2), Err(ContractError::ArithmeticOverflow));
}

#[test]
fn deposit_keeps_price_range() {
    let before = State { token_reserve: 10, base_reserve: 20, price_range_min: 3, price_range_max: 9 };
    let after = deposit(&before, 5).unwrap();
    assert_eq!(after, State { token_reserve: 15, base_reserve: 30, price_range_min: 3, price_range_max: 9 });
}

#[test]
fn query_of_unwritten_record_is_zero() {
    assert_eq!(query_state(None, &QueryMsg::State {}), state(0, 0));
    assert_eq!(get_state(None), State::zero());
    assert_eq!(State::zero(), state(0, 0));
}

#[test]
fn query_returns_stored_record() {
    let stored = State { token_reserve: 1, base_reserve: 2, price_range_min: 3, price_range_max: 4 };
    assert_eq!(query_state(Some(stored), &QueryMsg::State {}), stored);
}

#[test]
fn execute_deposit_on_unwritten_record_is_division_by_zero() {
    assert_eq!(execute_deposit(None, &DepositMsg { tokens: 10 }), Err(ContractError::DivisionByZero));
}

#[test]
fn execute_deposit_then_withdraw() {
    let first = execute_deposit(Some(state(1000, 500)), &DepositMsg { tokens: 100 }).unwrap();
    assert_eq!(first, state(1100, 550));
    let second = execute_withdraw(Some(first), &WithdrawMsg { tokens: 55 }).unwrap();
    assert_eq!(second, state(990, 495));
}

#[test]
fn execute_withdraw_on_unwritten_record_is_division_by_zero() {
    assert_eq!(execute_withdraw(None, &WithdrawMsg { tokens: 1 }), Err(ContractError::DivisionByZero));
}
