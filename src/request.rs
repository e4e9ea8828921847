//! The vault's operations as one closed set of requests, dispatched by match.

use vstd::prelude::*;
use crate::address::{Address, AddressView};
use crate::amount::Amount;
use crate::bridge_proof::BridgeProof;
use crate::error::VaultError;
use crate::events::{AssetLocked, AssetReleased, ValidatorAdded, ValidatorRemoved};
use crate::vault::{
    add_validator_step, follows, lock_step, release_step, remove_validator_step, set_paused_step,
    set_required_step, CasperVault, VaultView,
};

verus! {

/// A state-changing call into the vault.
pub enum Request {
    /// Escrow the attached `amount` for bridging.
    Lock { amount: Amount, destination_chain: String, destination_address: String },
    /// Release escrow on a signed proof.
    Release(BridgeProof),
    AddValidator(Address),
    RemoveValidator(Address),
    SetRequiredSignatures(u32),
    Pause,
    Unpause,
}

/// What a successful request hands back to the host.
pub enum Response {
    Locked(AssetLocked),
    /// The host transfers the released amount to the record's `user`.
    Released(AssetReleased),
    ValidatorAdded(ValidatorAdded),
    ValidatorRemoved(ValidatorRemoved),
    /// A configuration change with nothing to report.
    Done,
}

/// Whether a request is one of the owner's administrative operations.
pub open spec fn is_admin(req: Request) -> bool {
    !(req is Lock || req is Release)
}

/// Outcome of `caller` making the request `req`.
pub open spec fn request_step(s: VaultView, caller: AddressView, req: Request) -> Result<VaultView, VaultError> {
    match req {
        Request::Lock { amount, .. } => lock_step(s, amount.value()),
        Request::Release(p) => release_step(s, p),
        Request::AddValidator(v) => add_validator_step(s, caller, v@),
        Request::RemoveValidator(v) => remove_validator_step(s, caller, v@),
        Request::SetRequiredSignatures(n) => set_required_step(s, caller, n),
        Request::Pause => set_paused_step(s, caller, true),
        Request::Unpause => set_paused_step(s, caller, false),
    }
}

impl CasperVault {
    /// Carries out `request` on behalf of `caller`.
    pub fn handle(&mut self, caller: Address, request: Request) -> (r: Result<Response, VaultError>)
        requires
            old(self).inv(),
        ensures
            final(self).inv(),
            follows(r, old(self)@, request_step(old(self)@, caller@, request), final(self)@),
    {
        match request {
            Request::Lock { amount, destination_chain, destination_address } => {
                match self.lock_cspr(caller, amount, destination_chain, destination_address) {
                    Ok(ev) => Ok(Response::Locked(ev)),
                    Err(e) => Err(e),
                }
            },
            Request::Release(proof) => match self.release_cspr(proof) {
                Ok(ev) => Ok(Response::Released(ev)),
                Err(e) => Err(e),
            },
            Request::AddValidator(v) => match self.add_validator(caller, v) {
                Ok(ev) => Ok(Response::ValidatorAdded(ev)),
                Err(e) => Err(e),
            },
            Request::RemoveValidator(v) => match self.remove_validator(caller, v) {
                Ok(ev) => Ok(Response::ValidatorRemoved(ev)),
                Err(e) => Err(e),
            },
            Request::SetRequiredSignatures(n) => match self.set_required_signatures(caller, n) {
                Ok(()) => Ok(Response::Done),
                Err(e) => Err(e),
            },
            Request::Pause => match self.pause(caller) {
                Ok(()) => Ok(Response::Done),
                Err(e) => Err(e),
            },
            Request::Unpause => match self.unpause(caller) {
                Ok(()) => Ok(Response::Done),
                Err(e) => Err(e),
            },
        }
    }
}

} // verus!
