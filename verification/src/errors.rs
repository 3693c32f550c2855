use vstd::prelude::*;

verus! {

/// Why an engine operation was refused.
///
/// Every operation either completes in full or returns one of these kinds and
/// leaves the program state exactly as it was: no partial mutation is ever
/// visible.
#[derive(Clone, Copy, PartialEq, Eq, Structural, Debug)]
pub enum EscrowError {
    /// A malformed argument: a non-positive amount, a zero asset id, empty
    /// metadata, or a value that custody cannot hold without overflowing.
    PreconditionViolation,
    /// The acting identity lacks the capability the operation demands.
    AuthorizationFailure,
    /// The operation is invalid for the current derived phase, including
    /// operations on a program that is not yet initialized and a second
    /// initialization of one that is.
    StateViolation,
    /// The referenced listing or record does not exist.
    NotFound,
    /// The payout the operation would order exceeds what custody holds, so
    /// the value-transfer gateway would refuse the transfer.
    ExternalTransferFailure,
}

} // verus!
