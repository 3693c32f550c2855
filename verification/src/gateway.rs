use vstd::prelude::*;

verus! {

/// One fungible-value movement for the value-transfer gateway to perform.
///
/// The engine never moves value itself: a successful operation returns the
/// payments it requires, and the host either performs them all or abandons the
/// new state, so that ledger state and custody commit together.
#[derive(Clone, Copy, PartialEq, Eq, Structural, Debug)]
pub struct Payment {
    /// The fungible asset the payment is made in.
    pub token: u64,
    /// The account the value leaves.
    pub from: u64,
    /// The account the value reaches.
    pub to: u64,
    /// How much value moves.  A zero amount is a no-op for the gateway.
    pub amount: i128,
}

/// The payment that moves `amount` of `token` from `from` to `to`.
pub open spec fn spec_payment(token: u64, from: u64, to: u64, amount: i128) -> Payment {
    Payment { token, from, to, amount }
}

} // verus!
