//! Records the vault hands to its host for observers (relayers, indexers).

use vstd::prelude::*;
use crate::address::Address;
use crate::amount::Amount;

verus! {

/// Funds were escrowed for bridging to `destination_chain`.
#[derive(Clone, Debug, PartialEq, Eq)]
pub struct AssetLocked {
    pub user: Address,
    pub amount: Amount,
    pub token_type: String,
    pub destination_chain: String,
    pub destination_address: String,
    /// The lock counter before this lock incremented it.
    pub nonce: u64,
}

/// Escrowed funds were released to `user` on a proof from `source_chain`; the
/// host transfers `amount` to `user`.
#[derive(Clone, Debug, PartialEq, Eq)]
pub struct AssetReleased {
    pub user: Address,
    pub amount: Amount,
    pub token_type: String,
    pub source_chain: String,
    /// The nonce of the consumed proof.
    pub nonce: u64,
}

/// An identity was marked as an active validator.
#[derive(Clone, Copy, Debug, PartialEq, Eq)]
pub struct ValidatorAdded {
    pub validator: Address,
}

/// An identity's validator flag was cleared.
#[derive(Clone, Copy, Debug, PartialEq, Eq)]
pub struct ValidatorRemoved {
    pub validator: Address,
}

} // verus!
