use vstd::prelude::*;

verus! {

/// The ways an operation on the ledger can fail. Every failure leaves the
/// stored record as it was.
#[derive(Clone, Copy, Debug, PartialEq, Eq, Structural)]
pub enum ContractError {
    /// The backing store could not be read or written.
    StorageUnavailable,
    /// A product or a sum left the range of `u64`.
    ArithmeticOverflow,
    /// A subtraction would have gone below zero.
    ArithmeticUnderflow,
    /// A reserve that is a divisor was zero.
    DivisionByZero,
}

} // verus!
