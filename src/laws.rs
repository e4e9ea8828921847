//! Properties of the vault that hold of every state and every input.

use vstd::prelude::*;
use crate::address::AddressView;
use crate::amount::amount_limit;
use crate::bridge_proof::{BridgeProof, ValidatorSignature};
use crate::error::VaultError;
use crate::quorum::{counted_signer, signer_identity, valid_signers};
use crate::request::{is_admin, request_step, Request};
use crate::vault::{
    add_validator_step, after, lock_step, quorum_count, release_step, remove_validator_step, set_paused_step,
    set_required_step, VaultView, MAX_PROOF_SIGNATURES,
};

verus! {

/// A lock that is accepted grows the escrowed balance by exactly the amount
/// and the lock counter by exactly one, and changes nothing else.
pub proof fn lemma_lock_adds_amount(s: VaultView, amount: nat)
    requires
        lock_step(s, amount) is Ok,
    ensures
        lock_step(s, amount) == Ok::<VaultView, VaultError>(
            VaultView { total_locked: s.total_locked + amount, nonce: (s.nonce + 1) as u64, ..s },
        ),
        s.nonce + 1 <= u64::MAX,
        s.total_locked + amount < amount_limit(),
{
}

/// Locking less than the minimum always fails and leaves the state unchanged.
pub proof fn lemma_lock_below_minimum_fails(s: VaultView, amount: nat)
    requires
        amount < s.min_lock_amount,
    ensures
        lock_step(s, amount) is Err,
        !s.paused ==> lock_step(s, amount) == Err::<VaultView, VaultError>(VaultError::BelowMinimum),
        after(s, lock_step(s, amount)) == s,
{
}

/// Once a release on a proof succeeds, any further release with the same
/// nonce fails with `AlreadyProcessed`, whatever its signatures.
pub proof fn lemma_release_at_most_once(s: VaultView, p: BridgeProof, q: BridgeProof)
    requires
        release_step(s, p) is Ok,
        q.nonce == p.nonce,
    ensures
        release_step(after(s, release_step(s, p)), q) == Err::<VaultView, VaultError>(VaultError::AlreadyProcessed),
{
}

/// A consumed nonce stays consumed, whatever request anyone makes next.
pub proof fn lemma_consumed_nonces_persist(s: VaultView, n: u64, caller: AddressView, req: Request)
    requires
        s.processed_proofs.contains(n),
    ensures
        after(s, request_step(s, caller, req)).processed_proofs.contains(n),
{
}

/// Every request keeps the threshold at one signature or more.
pub proof fn lemma_threshold_stays_positive(s: VaultView, caller: AddressView, req: Request)
    requires
        s.required_signatures >= 1,
    ensures
        after(s, request_step(s, caller, req)).required_signatures >= 1,
{
}

/// Any administrative request from a caller other than the owner fails with
/// `Unauthorized` and changes nothing.
pub proof fn lemma_admin_requests_owner_only(s: VaultView, caller: AddressView, req: Request)
    requires
        is_admin(req),
        caller != s.owner,
    ensures
        request_step(s, caller, req) == Err::<VaultView, VaultError>(VaultError::Unauthorized),
        after(s, request_step(s, caller, req)) == s,
{
}

/// Only locks and releases move the escrowed balance or the lock counter.
pub proof fn lemma_admin_requests_keep_funds(s: VaultView, caller: AddressView, req: Request)
    requires
        is_admin(req),
    ensures
        after(s, request_step(s, caller, req)).total_locked == s.total_locked,
        after(s, request_step(s, caller, req)).nonce == s.nonce,
        after(s, request_step(s, caller, req)).processed_proofs == s.processed_proofs,
{
}

/// While the vault runs, a proof whose nonce is consumed is rejected with
/// `AlreadyProcessed`, however valid its signatures.
pub proof fn lemma_consumed_nonce_rejected(s: VaultView, q: BridgeProof)
    requires
        !s.paused,
        s.processed_proofs.contains(q.nonce),
    ensures
        release_step(s, q) == Err::<VaultView, VaultError>(VaultError::AlreadyProcessed),
{
}

/// Quorum: once the other checks pass, a release succeeds exactly when the
/// number of distinct, active validators with a valid signature reaches the
/// threshold.
pub proof fn lemma_release_needs_quorum(s: VaultView, p: BridgeProof)
    requires
        !s.paused,
        !s.processed_proofs.contains(p.nonce),
        s.required_signatures <= p.validator_signatures@.len() <= MAX_PROOF_SIGNATURES,
        p.amount.value() <= s.total_locked,
    ensures
        release_step(s, p) is Ok <==> quorum_count(s, p) >= s.required_signatures,
        quorum_count(s, p) < s.required_signatures ==> release_step(s, p) == Err::<VaultView, VaultError>(
            VaultError::InsufficientSignatures,
        ),
{
}

/// A release never succeeds with fewer distinct valid active signers than the threshold.
pub proof fn lemma_release_implies_quorum(s: VaultView, p: BridgeProof)
    requires
        release_step(s, p) is Ok,
    ensures
        quorum_count(s, p) >= s.required_signatures,
{
}

/// Only identities in the active set are ever counted.
pub proof fn lemma_signers_are_active(entries: Seq<ValidatorSignature>, message: Seq<u8>, active: Set<AddressView>)
    ensures
        valid_signers(entries, message, active).subset_of(active),
{
}

/// A further entry from a signer already counted does not change who is counted.
pub proof fn lemma_duplicate_signer_not_counted(
    entries: Seq<ValidatorSignature>,
    message: Seq<u8>,
    active: Set<AddressView>,
    j: int,
    extra: ValidatorSignature,
)
    requires
        0 <= j < entries.len(),
        signer_identity(extra, message) == signer_identity(entries[j], message),
    ensures
        valid_signers(entries.push(extra), message, active) == valid_signers(entries, message, active),
{
    let bigger = entries.push(extra);
    assert forall|id: AddressView|
        valid_signers(bigger, message, active).contains(id) implies valid_signers(entries, message, active).contains(
            id,
        ) by {
        let i = choose|i: int| 0 <= i < bigger.len() && counted_signer(bigger[i], message, active) == Some(id);
        if i == entries.len() {
            assert(counted_signer(entries[j], message, active) == Some(id));
        } else {
            assert(counted_signer(entries[i], message, active) == Some(id));
        }
    }
    assert forall|id: AddressView|
        valid_signers(entries, message, active).contains(id) implies valid_signers(bigger, message, active).contains(
            id,
        ) by {
        let i = choose|i: int| 0 <= i < entries.len() && counted_signer(entries[i], message, active) == Some(id);
        assert(counted_signer(bigger[i], message, active) == Some(id));
    }
    assert(valid_signers(bigger, message, active) =~= valid_signers(entries, message, active));
}

/// The order of the entries, and how often each occurs, does not matter: two
/// lists with the same entries count the same signers.
pub proof fn lemma_entry_order_irrelevant(
    a: Seq<ValidatorSignature>,
    b: Seq<ValidatorSignature>,
    message: Seq<u8>,
    active: Set<AddressView>,
)
    requires
        a.to_set() == b.to_set(),
    ensures
        valid_signers(a, message, active) == valid_signers(b, message, active),
{
    assert forall|id: AddressView|
        valid_signers(a, message, active).contains(id) implies valid_signers(b, message, active).contains(id) by {
        let i = choose|i: int| 0 <= i < a.len() && counted_signer(a[i], message, active) == Some(id);
        assert(a.to_set().contains(a[i]));
        assert(b.contains(a[i]));
        let k = b.index_of(a[i]);
        assert(counted_signer(b[k], message, active) == Some(id));
    }
    assert forall|id: AddressView|
        valid_signers(b, message, active).contains(id) implies valid_signers(a, message, active).contains(id) by {
        let i = choose|i: int| 0 <= i < b.len() && counted_signer(b[i], message, active) == Some(id);
        assert(b.to_set().contains(b[i]));
        assert(a.contains(b[i]));
        let k = a.index_of(b[i]);
        assert(counted_signer(a[k], message, active) == Some(id));
    }
    assert(valid_signers(a, message, active) =~= valid_signers(b, message, active));
}

/// After a validator is removed, its signatures no longer count toward any proof.
pub proof fn lemma_removed_validator_not_counted(
    s: VaultView,
    caller: AddressView,
    v: AddressView,
    entries: Seq<ValidatorSignature>,
    message: Seq<u8>,
)
    requires
        remove_validator_step(s, caller, v) is Ok,
    ensures
        !valid_signers(entries, message, after(s, remove_validator_step(s, caller, v)).validators).contains(v),
{
}

/// A successful release never takes more than is escrowed: the balance drops
/// by exactly the amount and stays non-negative.
pub proof fn lemma_release_debits_exactly(s: VaultView, p: BridgeProof)
    requires
        release_step(s, p) is Ok,
    ensures
        p.amount.value() <= s.total_locked,
        after(s, release_step(s, p)).total_locked == s.total_locked - p.amount.value(),
{
}

/// Releasing more than is escrowed always fails and changes nothing.
pub proof fn lemma_release_over_balance_fails(s: VaultView, p: BridgeProof)
    requires
        p.amount.value() > s.total_locked,
    ensures
        release_step(s, p) is Err,
        after(s, release_step(s, p)) == s,
{
}

/// Only the owner administers: for any other caller every administrative
/// operation fails with `Unauthorized` and changes nothing.
pub proof fn lemma_admin_owner_only(s: VaultView, caller: AddressView, v: AddressView, count: u32, flag: bool)
    requires
        caller != s.owner,
    ensures
        add_validator_step(s, caller, v) == Err::<VaultView, VaultError>(VaultError::Unauthorized),
        remove_validator_step(s, caller, v) == Err::<VaultView, VaultError>(VaultError::Unauthorized),
        set_required_step(s, caller, count) == Err::<VaultView, VaultError>(VaultError::Unauthorized),
        set_paused_step(s, caller, flag) == Err::<VaultView, VaultError>(VaultError::Unauthorized),
        after(s, add_validator_step(s, caller, v)) == s,
        after(s, remove_validator_step(s, caller, v)) == s,
        after(s, set_required_step(s, caller, count)) == s,
        after(s, set_paused_step(s, caller, flag)) == s,
{
}

} // verus!
