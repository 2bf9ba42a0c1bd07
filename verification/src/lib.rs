//! Settlement engine core: signed-order verification and exactly-once
//! settlement.
//!
//! An off-chain oracle signs settlement orders; the host runtime verifies the
//! signature natively and hands the surrounding instruction to this library.
//! The library checks the structural shape of that signature instruction,
//! decodes the order payload it certifies, cross-checks the caller's
//! arguments against the signed order, enforces nonce-based replay
//! protection, and computes the two directional settlement transitions
//! (seller deposit into escrow, buyer release from escrow).

pub mod codec;
pub mod errors;
pub mod ledger;
pub mod order;
pub mod settle;
pub mod sigproof;
pub mod state;
