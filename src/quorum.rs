//! Signature verification: which registered validators attested to a message.

use vstd::prelude::*;
use crate::address::{address_views, contains_address, Address, AddressView};
use crate::bridge_proof::ValidatorSignature;

verus! {

/// What ed25519_dalek's verification decides for a public key, a signature
/// and a message, all given as bytes.
pub uninterp spec fn ed25519_accepts(public_key: Seq<u8>, signature: Seq<u8>, message: Seq<u8>) -> bool;

/// The account hash that casper_types derives from an Ed25519 public key, or
/// `None` where the bytes are not a valid key.
pub uninterp spec fn ed25519_account_hash(public_key: Seq<u8>) -> Option<Seq<u8>>;

/// Relies on `ed25519_dalek::VerifyingKey::verify` (Ed25519 verification of
/// `signature` over `message`), after decoding the key with
/// `VerifyingKey::try_from` and the signature with `Signature::from_slice`; a
/// key or signature that does not decode is reported as not verifying.
#[verifier::external_body]
fn ed25519_verify(public_key: &[u8], signature: &[u8], message: &[u8]) -> (r: bool)
    ensures
        r == ed25519_accepts(public_key@, signature@, message@),
{
    match (ed25519_dalek::VerifyingKey::try_from(public_key), ed25519_dalek::Signature::from_slice(signature)) {
        (Ok(key), Ok(sig)) => ed25519_dalek::Verifier::verify(&key, message, &sig).is_ok(),
        _ => false,
    }
}

/// Relies on `casper_types::PublicKey::to_account_hash` for the key that
/// `PublicKey::ed25519_from_bytes` decodes from `public_key`.
#[verifier::external_body]
fn ed25519_to_account_hash(public_key: &[u8]) -> (r: Option<[u8; 32]>)
    ensures
        r is Some <==> ed25519_account_hash(public_key@) is Some,
        r matches Some(h) ==> ed25519_account_hash(public_key@) == Some(h@),
{
    match <casper_types::PublicKey as casper_types::AsymmetricType>::ed25519_from_bytes(public_key) {
        Ok(key) => Some(key.to_account_hash().value()),
        Err(_) => None,
    }
}

/// The account an Ed25519 public key resolves to, or `None` where the bytes
/// are not a valid key.
pub fn account_of_public_key(public_key: &Vec<u8>) -> (r: Option<Address>)
    ensures
        r is Some <==> ed25519_account_hash(public_key@) is Some,
        r matches Some(a) ==> !a@.0 && ed25519_account_hash(public_key@) == Some(a@.1),
{
    match ed25519_to_account_hash(public_key.as_slice()) {
        Some(h) => Some(Address::Account(h)),
        None => None,
    }
}

/// The identity that `entry` attests for over `message`: the account of its
/// public key, where the key and signature are well formed (32 and 64 bytes),
/// the signature verifies over `message`, and the key maps to an account.
pub open spec fn signer_identity(entry: ValidatorSignature, message: Seq<u8>) -> Option<AddressView> {
    if entry.public_key@.len() == 32 && entry.signature@.len() == 64 && ed25519_accepts(
        entry.public_key@,
        entry.signature@,
        message,
    ) {
        match ed25519_account_hash(entry.public_key@) {
            Some(h) => Some((false, h)),
            None => None,
        }
    } else {
        None
    }
}

/// The identity for which `entry` counts toward quorum: its signer, where that
/// signer is an active validator.
pub open spec fn counted_signer(
    entry: ValidatorSignature,
    message: Seq<u8>,
    active: Set<AddressView>,
) -> Option<AddressView> {
    match signer_identity(entry, message) {
        Some(id) => if active.contains(id) {
            Some(id)
        } else {
            None
        },
        None => None,
    }
}

/// The distinct active validators with a valid signature over `message` among `entries`.
pub open spec fn valid_signers(
    entries: Seq<ValidatorSignature>,
    message: Seq<u8>,
    active: Set<AddressView>,
) -> Set<AddressView> {
    Set::new(
        |id: AddressView|
            exists|i: int| 0 <= i < entries.len() && counted_signer(entries[i], message, active) == Some(id),
    )
}

/// The set of identities a list of addresses holds.
pub open spec fn address_set(list: Seq<Address>) -> Set<AddressView> {
    address_views(list).to_set()
}

/// An optional identity in mathematical form.
pub open spec fn opt_view(o: Option<Address>) -> Option<AddressView> {
    match o {
        Some(a) => Some(a@),
        None => None,
    }
}

/// The identities of a list of resolved signers, in order.
pub open spec fn signer_views(signers: Seq<Option<Address>>) -> Seq<Option<AddressView>> {
    signers.map_values(|o: Option<Address>| opt_view(o))
}

/// The distinct identities among `signers` that are in `active`.
pub open spec fn active_distinct(signers: Seq<Option<AddressView>>, active: Set<AddressView>) -> Set<AddressView> {
    Set::new(
        |id: AddressView| active.contains(id) && exists|i: int| 0 <= i < signers.len() && signers[i] == Some(id),
    )
}

/// The signer that `entry` attests for over `message`: the entry's key and
/// signature are checked for length, the signature is verified, and the key
/// is resolved to its account.
pub fn entry_signer(entry: &ValidatorSignature, message: &Vec<u8>) -> (r: Option<Address>)
    ensures
        opt_view(r) == signer_identity(*entry, message@),
{
    if entry.public_key.len() != 32 || entry.signature.len() != 64 {
        return None;
    }
    if !ed25519_verify(entry.public_key.as_slice(), entry.signature.as_slice(), message.as_slice()) {
        return None;
    }
    account_of_public_key(&entry.public_key)
}

/// Counts the distinct identities among `signers` that are in `validators`;
/// `None` entries and repeats are not counted.
pub fn count_active_distinct(signers: &Vec<Option<Address>>, validators: &Vec<Address>) -> (r: usize)
    ensures
        r == active_distinct(signer_views(signers@), address_set(validators@)).len(),
{
    let ghost active = address_set(validators@);
    let ghost sig = signer_views(signers@);
    let mut seen: Vec<Address> = Vec::new();
    let mut i: usize = 0;
    while i < signers.len()
        invariant
            0 <= i <= signers@.len(),
            active == address_set(validators@),
            sig == signer_views(signers@),
            address_views(seen@).no_duplicates(),
            forall|id: AddressView|
                #[trigger] address_views(seen@).contains(id) <==> (active.contains(id) && exists|k: int|
                    0 <= k < i && sig[k] == Some(id)),
        decreases signers@.len() - i,
    {
        let ghost before = address_views(seen@);
        let mut added: bool = false;
        match &signers[i] {
            Some(id) => {
                if contains_address(validators, id) && !contains_address(&seen, id) {
                    seen.push(*id);
                    added = true;
                    proof {
                        assert(address_views(seen@) =~= before.push(id@));
                    }
                }
            },
            None => {},
        }
        proof {
            let now = address_views(seen@);
            if !added {
                assert(now =~= before);
            }
            assert forall|id: AddressView|
                #[trigger] now.contains(id) <==> (active.contains(id) && exists|k: int| 0 <= k < i + 1 && sig[k] == Some(id)) by {
                if now.contains(id) && !before.contains(id) {
                    assert(now[now.len() - 1] == id);
                    assert(sig[i as int] == Some(id));
                }
                if active.contains(id) && exists|k: int| 0 <= k < i + 1 && sig[k] == Some(id) {
                    let k = choose|k: int| 0 <= k < i + 1 && sig[k] == Some(id);
                    if k < i {
                        assert(before.contains(id));
                        assert(now[before.index_of(id)] == id);
                    } else if !before.contains(id) {
                        assert(address_views(validators@).to_set() == active);
                        assert(added);
                        assert(now[now.len() - 1] == id);
                    }
                }
            }
        }
        i = i + 1;
    }
    proof {
        let sv = address_views(seen@);
        assert(active_distinct(sig, active) =~= sv.to_set());
        sv.unique_seq_to_set();
    }
    seen.len()
}

/// Counts the distinct active validators (those of `validators`) with a valid
/// signature over `message` among `entries`. Malformed or failing entries are
/// skipped, and a signer is counted once however often it appears.
pub fn count_valid_signers(
    entries: &Vec<ValidatorSignature>,
    message: &Vec<u8>,
    validators: &Vec<Address>,
) -> (r: usize)
    ensures
        r == valid_signers(entries@, message@, address_set(validators@)).len(),
{
    let mut signers: Vec<Option<Address>> = Vec::new();
    let mut i: usize = 0;
    while i < entries.len()
        invariant
            0 <= i <= entries@.len(),
            signers@.len() == i,
            forall|k: int| 0 <= k < i ==> opt_view(#[trigger] signers@[k]) == signer_identity(entries@[k], message@),
        decreases entries@.len() - i,
    {
        let s = entry_signer(&entries[i], message);
        signers.push(s);
        i = i + 1;
    }
    let r = count_active_distinct(&signers, validators);
    proof {
        let active = address_set(validators@);
        let sig = signer_views(signers@);
        assert forall|id: AddressView|
            #[trigger] valid_signers(entries@, message@, active).contains(id) <==> active_distinct(sig, active).contains(id) by {
            if valid_signers(entries@, message@, active).contains(id) {
                let k = choose|k: int| 0 <= k < entries@.len() && counted_signer(entries@[k], message@, active) == Some(id);
                assert(sig[k] == Some(id));
            }
            if active_distinct(sig, active).contains(id) {
                let k = choose|k: int| 0 <= k < sig.len() && sig[k] == Some(id);
                assert(opt_view(signers@[k]) == signer_identity(entries@[k], message@));
                assert(counted_signer(entries@[k], message@, active) == Some(id));
            }
        }
        assert(valid_signers(entries@, message@, active) =~= active_distinct(sig, active));
    }
    r
}

} // verus!
