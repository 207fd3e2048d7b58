use vstd::prelude::*;

verus! {

/// A request to add `tokens` to the token side of the pool.
#[derive(Clone, Copy, Debug, PartialEq, Eq, Structural)]
pub struct DepositMsg {
    pub tokens: u64,
}

/// A request to take `tokens` from the base side of the pool.
#[derive(Clone, Copy, Debug, PartialEq, Eq, Structural)]
pub struct WithdrawMsg {
    pub tokens: u64,
}

/// The read-only queries the ledger answers.
#[derive(Clone, Copy, Debug, PartialEq, Eq, Structural)]
pub enum QueryMsg {
    /// The whole current record.
    State {},
}

} // verus!
