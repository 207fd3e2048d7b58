use vstd::prelude::*;

verus! {

/// The pool's record: both reserves and the declared price bounds.
#[derive(Clone, Copy, Debug, PartialEq, Eq, Structural)]
pub struct State {
    pub token_reserve: u64,
    pub base_reserve: u64,
    pub price_range_min: u64,
    pub price_range_max: u64,
}

/// The record with every field zero.
pub open spec fn zero_state() -> State {
    State { token_reserve: 0, base_reserve: 0, price_range_min: 0, price_range_max: 0 }
}

/// The record that a load yields: what was stored, or the zero record.
pub open spec fn stored_or_default(stored: Option<State>) -> State {
    match stored {
        Some(s) => s,
        None => zero_state(),
    }
}

impl State {
    /// The record of a pool that nothing has been written to yet.
    pub fn zero() -> (r: State)
        ensures
            r == zero_state(),
    {
        State { token_reserve: 0, base_reserve: 0, price_range_min: 0, price_range_max: 0 }
    }
}

/// The current record, given what the backing store held under the record's
/// key. An absent record reads as all zero; nothing is written back.
pub fn get_state(stored: Option<State>) -> (r: State)
    ensures
        r == stored_or_default(stored),
        stored is None ==> r == zero_state(),
{
    match stored {
        Some(s) => s,
        None => State::zero(),
    }
}

} // verus!
