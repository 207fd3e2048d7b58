//! State-transition core of a single-pool liquidity ledger: two paired
//! reserves and a declared price range, updated by proportional deposits and
//! withdrawals with every arithmetic step checked.

pub mod contract;
pub mod error;
pub mod laws;
pub mod msg;
pub mod reserves;
pub mod state;
