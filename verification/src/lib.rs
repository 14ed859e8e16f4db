//! Settlement and governance core of a cross-chain liquidity-bridging
//! protocol.
//!
//! Two tightly coupled state machines live here: time-delayed governance
//! proposals ([`governance`]) and exactly-once redemption of cross-chain
//! fast-fill attestations ([`redemption`]). External collaborators — the
//! time oracle, the attestation parser, the matching-engine finalize call,
//! the storage balance provider and the transfer/resize primitives — are
//! modeled at their interfaces: the caller performs them and hands their
//! outcomes in as plain values, and every decision taken on those outcomes
//! is verified.

use vstd::prelude::*;

pub mod governance;
pub mod redemption;

verus! {

/// A 32-byte identity on the ledger: an account, a signer, or a recipient.
#[derive(Clone, Copy, PartialEq, Eq, Debug)]
pub struct Address {
    pub bytes: [u8; 32],
}

} // verus!
