//! Escrow-gated value-transfer engines for an append-only ledger.
//!
//! Participants deposit fungible value or place competing bids against a
//! listed asset; the engine later resolves the escrow — paying a recipient,
//! refunding depositors, or returning an outbid participant's funds — based on
//! a time boundary and a funding threshold.  Every operation is a pure state
//! transition: it takes the current program state, the ledger clock, and the
//! answers of the external collaborators (the asset registry's ownership
//! check), and returns the new state together with the transfers the
//! value-transfer gateway must perform.  The host shell around the library
//! performs authorization, storage, and the transfers themselves.

pub mod auction;
pub mod crowdfund;
pub mod errors;
pub mod gateway;
pub mod ledger;
pub mod phase;
pub mod nft;
pub mod registry;
pub mod sbt;
pub mod storefront;
