//! Why the vault rejects an operation.

use vstd::prelude::*;

verus! {

/// Why an operation was rejected. A rejected operation changes nothing.
#[derive(Clone, Copy, Debug, PartialEq, Eq, Structural)]
pub enum VaultError {
    /// The caller of an administrative operation is not the owner.
    Unauthorized,
    /// A value-moving operation was attempted while the vault is paused.
    Paused,
    /// The amount to lock is below the minimum.
    BelowMinimum,
    /// The proof's nonce was already consumed.
    AlreadyProcessed,
    /// Too few signature entries, or too few valid signers after verification.
    InsufficientSignatures,
    /// More signature entries than the vault will examine.
    TooManySignatures,
    /// The release amount exceeds the escrowed balance.
    InsufficientEscrow,
    /// A threshold of zero signatures.
    InvalidConfiguration,
    /// The escrowed balance or the lock counter would leave its range.
    Overflow,
}

} // verus!
