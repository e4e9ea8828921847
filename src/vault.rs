//! The vault: escrow balance, lock counter, replay registry, validator set and
//! pause flag, changed only through its operations.

use vstd::prelude::*;
use crate::address::{address_views, contains_address, Address, AddressView};
use crate::amount::{amount_limit, Amount};
use crate::bridge_proof::{message_hash, proof_message, BridgeProof};
use crate::error::VaultError;
use crate::events::{AssetLocked, AssetReleased, ValidatorAdded, ValidatorRemoved};
use crate::quorum::{address_set, count_valid_signers, valid_signers};

verus! {

/// The most signature entries a release proof may carry; longer lists are
/// rejected before any signature is checked.
pub const MAX_PROOF_SIGNATURES: usize = 64;

/// Mathematical form of the vault's state.
pub struct VaultView {
    pub owner: AddressView,
    /// The identities currently marked active.
    pub validators: Set<AddressView>,
    pub required_signatures: u32,
    pub total_locked: nat,
    pub nonce: u64,
    pub processed_proofs: Set<u64>,
    pub paused: bool,
    pub min_lock_amount: nat,
}

/// The state right after initialization by `caller`.
pub open spec fn initial_state(caller: AddressView, required_sigs: u32, min_amount: nat) -> VaultView {
    VaultView {
        owner: caller,
        validators: Set::empty().insert(caller),
        required_signatures: required_sigs,
        total_locked: 0,
        nonce: 0,
        processed_proofs: Set::empty(),
        paused: false,
        min_lock_amount: min_amount,
    }
}

/// Outcome of locking `amount`.
pub open spec fn lock_step(s: VaultView, amount: nat) -> Result<VaultView, VaultError> {
    if s.paused {
        Err(VaultError::Paused)
    } else if amount < s.min_lock_amount {
        Err(VaultError::BelowMinimum)
    } else if s.total_locked + amount >= amount_limit() || s.nonce == u64::MAX {
        Err(VaultError::Overflow)
    } else {
        Ok(VaultView { total_locked: s.total_locked + amount, nonce: (s.nonce + 1) as u64, ..s })
    }
}

/// Number of distinct active validators that validly signed `p`.
pub open spec fn quorum_count(s: VaultView, p: BridgeProof) -> nat {
    valid_signers(p.validator_signatures@, proof_message(&p), s.validators).len()
}

/// Outcome of releasing on proof `p`: each check in turn, then the nonce is
/// consumed and the amount debited.
pub open spec fn release_step(s: VaultView, p: BridgeProof) -> Result<VaultView, VaultError> {
    if s.paused {
        Err(VaultError::Paused)
    } else if s.processed_proofs.contains(p.nonce) {
        Err(VaultError::AlreadyProcessed)
    } else if p.validator_signatures@.len() < s.required_signatures {
        Err(VaultError::InsufficientSignatures)
    } else if p.validator_signatures@.len() > MAX_PROOF_SIGNATURES {
        Err(VaultError::TooManySignatures)
    } else if quorum_count(s, p) < s.required_signatures {
        Err(VaultError::InsufficientSignatures)
    } else if s.total_locked < p.amount.value() {
        Err(VaultError::InsufficientEscrow)
    } else {
        Ok(
            VaultView {
                processed_proofs: s.processed_proofs.insert(p.nonce),
                total_locked: (s.total_locked - p.amount.value()) as nat,
                ..s
            },
        )
    }
}

/// Outcome of `caller` marking `v` active.
pub open spec fn add_validator_step(s: VaultView, caller: AddressView, v: AddressView) -> Result<VaultView, VaultError> {
    if caller != s.owner {
        Err(VaultError::Unauthorized)
    } else {
        Ok(VaultView { validators: s.validators.insert(v), ..s })
    }
}

/// Outcome of `caller` clearing the flag of `v`.
pub open spec fn remove_validator_step(s: VaultView, caller: AddressView, v: AddressView) -> Result<VaultView, VaultError> {
    if caller != s.owner {
        Err(VaultError::Unauthorized)
    } else {
        Ok(VaultView { validators: s.validators.remove(v), ..s })
    }
}

/// Outcome of `caller` setting the threshold to `count`.
pub open spec fn set_required_step(s: VaultView, caller: AddressView, count: u32) -> Result<VaultView, VaultError> {
    if caller != s.owner {
        Err(VaultError::Unauthorized)
    } else if count == 0 {
        Err(VaultError::InvalidConfiguration)
    } else {
        Ok(VaultView { required_signatures: count, ..s })
    }
}

/// Outcome of `caller` setting the pause flag to `paused`.
pub open spec fn set_paused_step(s: VaultView, caller: AddressView, paused: bool) -> Result<VaultView, VaultError> {
    if caller != s.owner {
        Err(VaultError::Unauthorized)
    } else {
        Ok(VaultView { paused, ..s })
    }
}

/// The state a step leaves: the new state on success, `s` itself on rejection.
pub open spec fn after(s: VaultView, r: Result<VaultView, VaultError>) -> VaultView {
    match r {
        Ok(t) => t,
        Err(_) => s,
    }
}

/// Whether an operation's result and the state it left agree with `step`.
pub open spec fn follows<T>(r: Result<T, VaultError>, s: VaultView, step: Result<VaultView, VaultError>, t: VaultView) -> bool {
    &&& t == after(s, step)
    &&& (r is Ok <==> step is Ok)
    &&& (r matches Err(e) ==> step == Err::<VaultView, VaultError>(e))
}

/// The bridge vault.
pub struct CasperVault {
    owner: Address,
    validators: Vec<Address>,
    required_signatures: u32,
    total_locked: Amount,
    nonce: u64,
    processed_proofs: Vec<u64>,
    paused: bool,
    min_lock_amount: Amount,
}

impl View for CasperVault {
    type V = VaultView;

    closed spec fn view(&self) -> VaultView {
        VaultView {
            owner: self.owner@,
            validators: address_set(self.validators@),
            required_signatures: self.required_signatures,
            total_locked: self.total_locked.value(),
            nonce: self.nonce,
            processed_proofs: self.processed_proofs@.to_set(),
            paused: self.paused,
            min_lock_amount: self.min_lock_amount.value(),
        }
    }
}

/// Whether some element of `list` is `x`.
fn contains_u64(list: &Vec<u64>, x: u64) -> (r: bool)
    ensures
        r == list@.contains(x),
{
    let mut i: usize = 0;
    while i < list.len()
        invariant
            0 <= i <= list@.len(),
            forall|k: int| 0 <= k < i ==> list@[k] != x,
        decreases list@.len() - i,
    {
        if list[i] == x {
            return true;
        }
        i = i + 1;
    }
    false
}

/// `list` without any entry for the identity `a`.
fn without_address(list: &Vec<Address>, a: &Address) -> (r: Vec<Address>)
    ensures
        address_set(r@) == address_set(list@).remove(a@),
{
    let mut out: Vec<Address> = Vec::new();
    let mut i: usize = 0;
    while i < list.len()
        invariant
            0 <= i <= list@.len(),
            forall|id: AddressView|
                #[trigger] address_views(out@).contains(id) <==> (id != a@ && exists|k: int|
                    0 <= k < i && list@[k]@ == id),
        decreases list@.len() - i,
    {
        let ghost before = address_views(out@);
        let x = list[i];
        if !x.same_as(a) {
            out.push(x);
            assert(address_views(out@) =~= before.push(x@));
        }
        proof {
            let now = address_views(out@);
            assert forall|id: AddressView|
                #[trigger] now.contains(id) <==> (id != a@ && exists|k: int| 0 <= k < i + 1 && list@[k]@ == id) by {
                if now.contains(id) && !before.contains(id) {
                    assert(now[now.len() - 1] == id);
                    assert(list@[i as int]@ == id);
                }
                if id != a@ && exists|k: int| 0 <= k < i + 1 && list@[k]@ == id {
                    let k = choose|k: int| 0 <= k < i + 1 && list@[k]@ == id;
                    if k < i {
                        assert(before.contains(id));
                        assert(now[before.index_of(id)] == id);
                    } else {
                        assert(now[now.len() - 1] == id);
                    }
                }
            }
        }
        i = i + 1;
    }
    proof {
        let lv = address_views(list@);
        assert forall|id: AddressView| address_set(list@).contains(id) <==> exists|k: int| 0 <= k < list@.len() && list@[k]@ == id by {
            if lv.contains(id) {
                let k = lv.index_of(id);
                assert(list@[k]@ == id);
            }
            if exists|k: int| 0 <= k < list@.len() && list@[k]@ == id {
                let k = choose|k: int| 0 <= k < list@.len() && list@[k]@ == id;
                assert(lv[k] == id);
            }
        }
        assert(address_set(out@) =~= address_set(list@).remove(a@));
    }
    out
}

impl CasperVault {
    /// The vault's invariant: at least one signature is required for a release.
    pub closed spec fn inv(&self) -> bool {
        self.required_signatures >= 1
    }

    /// Creates a vault owned by `caller`, who is also its first validator.
    /// A threshold of zero is rejected.
    pub fn init(caller: Address, required_sigs: u32, min_amount: Amount) -> (r: Result<CasperVault, VaultError>)
        ensures
            required_sigs == 0 <==> r is Err,
            r matches Err(e) ==> e == VaultError::InvalidConfiguration,
            r matches Ok(v) ==> v.inv() && v@ == initial_state(caller@, required_sigs, min_amount.value()),
    {
        if required_sigs == 0 {
            return Err(VaultError::InvalidConfiguration);
        }
        let mut validators: Vec<Address> = Vec::new();
        validators.push(caller);
        let v = CasperVault {
            owner: caller,
            validators,
            required_signatures: required_sigs,
            total_locked: Amount::zero(),
            nonce: 0,
            processed_proofs: Vec::new(),
            paused: false,
            min_lock_amount: min_amount,
        };
        proof {
            assert(address_views(v.validators@) =~= seq![caller@]);
            assert(seq![caller@][0] == caller@);
            assert(seq![caller@].to_set() =~= Set::empty().insert(caller@));
            assert(v.processed_proofs@.to_set() =~= Set::<u64>::empty());
        }
        Ok(v)
    }

    /// Fails with `Unauthorized` unless `caller` is the owner.
    fn require_owner(&self, caller: &Address) -> (r: Result<(), VaultError>)
        ensures
            r is Ok <==> caller@ == self@.owner,
            r matches Err(e) ==> e == VaultError::Unauthorized,
    {
        if caller.same_as(&self.owner) {
            Ok(())
        } else {
            Err(VaultError::Unauthorized)
        }
    }

    /// Fails with `Paused` while the vault is paused.
    fn require_not_paused(&self) -> (r: Result<(), VaultError>)
        ensures
            r is Ok <==> !self@.paused,
            r matches Err(e) ==> e == VaultError::Paused,
    {
        if self.paused {
            Err(VaultError::Paused)
        } else {
            Ok(())
        }
    }

    /// Escrows `amount` sent by `caller` for bridging to `destination_chain`.
    /// Rejected while paused and below the minimum; on success the balance
    /// grows by `amount`, the lock counter by one, and the returned record
    /// carries the counter as it was before.
    pub fn lock_cspr(
        &mut self,
        caller: Address,
        amount: Amount,
        destination_chain: String,
        destination_address: String,
    ) -> (r: Result<AssetLocked, VaultError>)
        requires
            old(self).inv(),
        ensures
            final(self).inv(),
            follows(r, old(self)@, lock_step(old(self)@, amount.value()), final(self)@),
            r matches Ok(ev) ==> {
                &&& ev.user == caller
                &&& ev.amount == amount
                &&& ev.token_type@ == "CSPR"@
                &&& ev.destination_chain == destination_chain
                &&& ev.destination_address == destination_address
                &&& ev.nonce == old(self)@.nonce
            },
    {
        self.require_not_paused()?;
        if amount.lt(&self.min_lock_amount) {
            return Err(VaultError::BelowMinimum);
        }
        let total = match self.total_locked.checked_add(&amount) {
            Some(t) => t,
            None => {
                return Err(VaultError::Overflow);
            },
        };
        if self.nonce == u64::MAX {
            return Err(VaultError::Overflow);
        }
        let current_nonce = self.nonce;
        self.total_locked = total;
        self.nonce = current_nonce + 1;
        Ok(
            AssetLocked {
                user: caller,
                amount,
                token_type: "CSPR".to_owned(),
                destination_chain,
                destination_address,
                nonce: current_nonce,
            },
        )
    }

    /// Releases escrow on a proof: rejected while paused, on a consumed nonce,
    /// on fewer signature entries than the threshold or more than
    /// `MAX_PROOF_SIGNATURES`, when fewer distinct active validators than the
    /// threshold validly signed the proof's digest, and when the amount exceeds
    /// the balance. On success the nonce is consumed, the balance debited, and
    /// the returned record tells the host what to transfer to whom.
    pub fn release_cspr(&mut self, proof: BridgeProof) -> (r: Result<AssetReleased, VaultError>)
        requires
            old(self).inv(),
        ensures
            final(self).inv(),
            follows(r, old(self)@, release_step(old(self)@, proof), final(self)@),
            r matches Ok(ev) ==> {
                &&& ev.user == proof.recipient
                &&& ev.amount == proof.amount
                &&& ev.token_type@ == "CSPR"@
                &&& ev.source_chain == proof.source_chain
                &&& ev.nonce == proof.nonce
            },
    {
        self.require_not_paused()?;
        if contains_u64(&self.processed_proofs, proof.nonce) {
            return Err(VaultError::AlreadyProcessed);
        }
        let n = proof.validator_signatures.len();
        if n < self.required_signatures as usize {
            return Err(VaultError::InsufficientSignatures);
        }
        if n > MAX_PROOF_SIGNATURES {
            return Err(VaultError::TooManySignatures);
        }
        if !self.verify_signatures(&proof) {
            return Err(VaultError::InsufficientSignatures);
        }
        let remaining = match self.total_locked.checked_sub(&proof.amount) {
            Some(t) => t,
            None => {
                return Err(VaultError::InsufficientEscrow);
            },
        };
        let ghost before = self.processed_proofs@;
        self.processed_proofs.push(proof.nonce);
        self.total_locked = remaining;
        proof {
            assert(self.processed_proofs@.to_set() =~= before.to_set().insert(proof.nonce)) by {
                assert(self.processed_proofs@ == before.push(proof.nonce));
                assert forall|x: u64| self.processed_proofs@.contains(x) <==> before.contains(x) || x == proof.nonce by {
                    if before.contains(x) {
                        assert(self.processed_proofs@[before.index_of(x)] == x);
                    }
                    if x == proof.nonce {
                        assert(self.processed_proofs@[before.len() as int] == x);
                    }
                    if self.processed_proofs@.contains(x) && x != proof.nonce {
                        let k = self.processed_proofs@.index_of(x);
                        assert(before[k] == x);
                    }
                }
            }
        }
        Ok(
            AssetReleased {
                user: proof.recipient,
                amount: proof.amount,
                token_type: "CSPR".to_owned(),
                source_chain: proof.source_chain,
                nonce: proof.nonce,
            },
        )
    }

    /// Whether at least the required number of distinct active validators
    /// validly signed the digest of `proof`.
    pub fn verify_signatures(&self, proof: &BridgeProof) -> (r: bool)
        ensures
            r == (quorum_count(self@, *proof) >= self@.required_signatures),
    {
        let message = message_hash(proof);
        let count = count_valid_signers(&proof.validator_signatures, &message, &self.validators);
        count >= self.required_signatures as usize
    }

    /// Marks `validator` active; owner only.
    pub fn add_validator(&mut self, caller: Address, validator: Address) -> (r: Result<ValidatorAdded, VaultError>)
        requires
            old(self).inv(),
        ensures
            final(self).inv(),
            follows(r, old(self)@, add_validator_step(old(self)@, caller@, validator@), final(self)@),
            r matches Ok(ev) ==> ev.validator == validator,
    {
        self.require_owner(&caller)?;
        if !contains_address(&self.validators, &validator) {
            let ghost before = address_views(self.validators@);
            self.validators.push(validator);
            proof {
                let now = address_views(self.validators@);
                assert(now =~= before.push(validator@));
                assert forall|x: AddressView| now.contains(x) <==> before.contains(x) || x == validator@ by {
                    if before.contains(x) {
                        assert(now[before.index_of(x)] == x);
                    }
                    if x == validator@ {
                        assert(now[before.len() as int] == x);
                    }
                    if now.contains(x) && x != validator@ {
                        assert(before[now.index_of(x)] == x);
                    }
                }
                assert(now.to_set() =~= before.to_set().insert(validator@));
            }
        } else {
            assert(address_set(self.validators@) =~= address_set(self.validators@).insert(validator@));
        }
        Ok(ValidatorAdded { validator })
    }

    /// Clears the active flag of `validator`; owner only. Proofs already
    /// consumed stay consumed.
    pub fn remove_validator(&mut self, caller: Address, validator: Address) -> (r: Result<ValidatorRemoved, VaultError>)
        requires
            old(self).inv(),
        ensures
            final(self).inv(),
            follows(r, old(self)@, remove_validator_step(old(self)@, caller@, validator@), final(self)@),
            r matches Ok(ev) ==> ev.validator == validator,
    {
        self.require_owner(&caller)?;
        self.validators = without_address(&self.validators, &validator);
        Ok(ValidatorRemoved { validator })
    }

    /// Sets the number of distinct validator signatures a release needs;
    /// owner only, and never zero.
    pub fn set_required_signatures(&mut self, caller: Address, count: u32) -> (r: Result<(), VaultError>)
        requires
            old(self).inv(),
        ensures
            final(self).inv(),
            follows(r, old(self)@, set_required_step(old(self)@, caller@, count), final(self)@),
    {
        self.require_owner(&caller)?;
        if count == 0 {
            return Err(VaultError::InvalidConfiguration);
        }
        self.required_signatures = count;
        Ok(())
    }

    /// Stops locks and releases; owner only.
    pub fn pause(&mut self, caller: Address) -> (r: Result<(), VaultError>)
        requires
            old(self).inv(),
        ensures
            final(self).inv(),
            follows(r, old(self)@, set_paused_step(old(self)@, caller@, true), final(self)@),
    {
        self.require_owner(&caller)?;
        self.paused = true;
        Ok(())
    }

    /// Lets locks and releases run again; owner only.
    pub fn unpause(&mut self, caller: Address) -> (r: Result<(), VaultError>)
        requires
            old(self).inv(),
        ensures
            final(self).inv(),
            follows(r, old(self)@, set_paused_step(old(self)@, caller@, false), final(self)@),
    {
        self.require_owner(&caller)?;
        self.paused = false;
        Ok(())
    }

    /// Whether `address` is an active validator.
    pub fn is_validator(&self, address: Address) -> (r: bool)
        ensures
            r == self@.validators.contains(address@),
    {
        contains_address(&self.validators, &address)
    }

    /// The escrowed balance.
    pub fn get_total_locked(&self) -> (r: Amount)
        ensures
            r.value() == self@.total_locked,
    {
        self.total_locked
    }

    /// The lock counter: the number of successful locks so far.
    pub fn get_nonce(&self) -> (r: u64)
        ensures
            r == self@.nonce,
    {
        self.nonce
    }

    /// Whether a proof with this nonce was consumed.
    pub fn is_proof_processed(&self, nonce: u64) -> (r: bool)
        ensures
            r == self@.processed_proofs.contains(nonce),
    {
        contains_u64(&self.processed_proofs, nonce)
    }

    /// The administrator.
    pub fn owner(&self) -> (r: Address)
        ensures
            r@ == self@.owner,
    {
        self.owner
    }

    /// Whether locks and releases are stopped.
    pub fn is_paused(&self) -> (r: bool)
        ensures
            r == self@.paused,
    {
        self.paused
    }

    /// The number of distinct validator signatures a release needs.
    pub fn get_required_signatures(&self) -> (r: u32)
        ensures
            r == self@.required_signatures,
            self.inv() ==> r >= 1,
    {
        self.required_signatures
    }

    /// The smallest amount a lock accepts.
    pub fn get_min_lock_amount(&self) -> (r: Amount)
        ensures
            r.value() == self@.min_lock_amount,
    {
        self.min_lock_amount
    }
}

} // verus!
