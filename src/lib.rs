//! Custody and authorization core of a cross-chain bridge vault: escrow of a
//! native asset, quorum-signed release proofs, replay protection and
//! owner-gated administration.

pub mod address;
pub mod amount;
pub mod bridge_proof;
pub mod error;
pub mod events;
pub mod laws;
pub mod quorum;
pub mod request;
pub mod vault;
