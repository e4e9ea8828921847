use casper_vault::address::Address;
use casper_vault::amount::Amount;
use casper_vault::bridge_proof::{encode_proof, message_hash, BridgeProof, ValidatorSignature};
use casper_vault::error::VaultError;
use casper_vault::quorum::{account_of_public_key, count_active_distinct, count_valid_signers, entry_signer};
use casper_vault::request::{Request, Response};
use casper_vault::vault::{CasperVault, MAX_PROOF_SIGNATURES};
use casper_types::AsymmetricType;
use ed25519_dalek::{Signer, SigningKey};

fn signing_key(seed: u8) -> SigningKey {
    SigningKey::from_bytes(&[seed; 32])
}

fn public_key_bytes(key: &SigningKey) -> Vec<u8> {
    key.verifying_key().to_bytes().to_vec()
}

fn account_of(key: &SigningKey) -> Address {
    account_of_public_key(&public_key_bytes(key)).unwrap()
}

fn sign(key: &SigningKey, proof: &BridgeProof) -> ValidatorSignature {
    let message = message_hash(proof);
    ValidatorSignature {
        public_key: public_key_bytes(key),
        signature: key.sign(&message).to_bytes().to_vec(),
    }
}

fn unsigned_proof(nonce: u64, amount: u64, recipient: Address) -> BridgeProof {
    BridgeProof {
        source_chain: String::from("ethereum"),
        source_tx_hash: String::from("0xdeadbeef"),
        amount: Amount::from_u64(amount),
        recipient,
        nonce,
        validator_signatures: Vec::new(),
    }
}

fn signed_proof(nonce: u64, amount: u64, recipient: Address, keys: &[&SigningKey]) -> BridgeProof {
    let mut proof = unsigned_proof(nonce, amount, recipient);
    let sigs: Vec<ValidatorSignature> = keys.iter().map(|k| sign(k, &proof)).collect();
    proof.validator_signatures = sigs;
    proof
}

/// A vault owned by the account of key 1, with keys 1 and 2 as validators,
/// threshold 2, minimum 1000, and 5000 locked.
fn funded_vault() -> (CasperVault, SigningKey, SigningKey) {
    let k1 = signing_key(1);
    let k2 = signing_key(2);
    let owner = account_of(&k1);
    let mut vault = CasperVault::init(owner, 2, Amount::from_u64(1000)).unwrap();
    vault.add_validator(owner, account_of(&k2)).unwrap();
    vault
        .lock_cspr(owner, Amount::from_u64(5000), String::from("eth"), String::from("0xabc"))
        .unwrap();
    (vault, k1, k2)
}

#[test]
fn test_initialization() {
    let owner = Address::Account([7; 32]);
    let vault = CasperVault::init(owner, 2, Amount::from_u64(1_000_000_000u64)).unwrap();
    assert_eq!(vault.get_nonce(), 0);
    assert_eq!(vault.get_total_locked(), Amount::zero());
}

#[test]
fn test_lock_cspr() {
    let owner = Address::Account([7; 32]);
    let mut vault = CasperVault::init(owner, 2, Amount::from_u64(1_000_000_000u64)).unwrap();
    let amount = Amount::from_u64(10_000_000_000u64);
    vault
        .lock_cspr(
            owner,
            amount,
            String::from("ethereum"),
            String::from("0x742d35Cc6634C0532925a3b844Bc9e7595f0bEb"),
        )
        .unwrap();
    assert_eq!(vault.get_total_locked(), amount);
    assert_eq!(vault.get_nonce(), 1);
}

#[test]
fn test_add_validator() {
    let owner = Address::Account([7; 32]);
    let mut vault = CasperVault::init(owner, 2, Amount::from_u64(1_000_000_000u64)).unwrap();
    let new_validator = Address::Account([8; 32]);
    vault.add_validator(owner, new_validator).unwrap();
    assert!(vault.is_validator(new_validator));
}

#[test]
fn init_makes_owner_first_validator() {
    let owner = Address::Account([7; 32]);
    let vault = CasperVault::init(owner, 3, Amount::from_u64(5)).unwrap();
    assert!(vault.is_validator(owner));
    assert_eq!(vault.owner(), owner);
    assert_eq!(vault.get_required_signatures(), 3);
    assert_eq!(vault.get_min_lock_amount(), Amount::from_u64(5));
    assert!(!vault.is_paused());
    assert!(!vault.is_proof_processed(0));
}

#[test]
fn init_rejects_zero_threshold() {
    let r = CasperVault::init(Address::Account([7; 32]), 0, Amount::from_u64(1));
    assert!(matches!(r, Err(VaultError::InvalidConfiguration)));
}

#[test]
fn lock_scenario_reports_pre_increment_nonce() {
    let owner = Address::Account([7; 32]);
    let user = Address::Contract([9; 32]);
    let mut vault = CasperVault::init(owner, 2, Amount::from_u64(1000)).unwrap();
    let ev = vault
        .lock_cspr(user, Amount::from_u64(5000), String::from("eth"), String::from("0xabc"))
        .unwrap();
    assert_eq!(vault.get_total_locked(), Amount::from_u64(5000));
    assert_eq!(vault.get_nonce(), 1);
    assert_eq!(ev.nonce, 0);
    assert_eq!(ev.user, user);
    assert_eq!(ev.amount, Amount::from_u64(5000));
    assert_eq!(ev.token_type, "CSPR");
    assert_eq!(ev.destination_chain, "eth");
    assert_eq!(ev.destination_address, "0xabc");
    let ev2 = vault
        .lock_cspr(user, Amount::from_u64(1000), String::from("eth"), String::from("0xabc"))
        .unwrap();
    assert_eq!(ev2.nonce, 1);
    assert_eq!(vault.get_nonce(), 2);
    assert_eq!(vault.get_total_locked(), Amount::from_u64(6000));
}

#[test]
fn lock_below_minimum_fails_without_change() {
    let owner = Address::Account([7; 32]);
    let mut vault = CasperVault::init(owner, 2, Amount::from_u64(1000)).unwrap();
    let r = vault.lock_cspr(owner, Amount::from_u64(999), String::from("eth"), String::from("0xabc"));
    assert!(matches!(r, Err(VaultError::BelowMinimum)));
    assert_eq!(vault.get_total_locked(), Amount::zero());
    assert_eq!(vault.get_nonce(), 0);
}

#[test]
fn lock_while_paused_fails() {
    let owner = Address::Account([7; 32]);
    let mut vault = CasperVault::init(owner, 2, Amount::from_u64(1000)).unwrap();
    vault.pause(owner).unwrap();
    let r = vault.lock_cspr(owner, Amount::from_u64(5000), String::from("eth"), String::from("0xabc"));
    assert!(matches!(r, Err(VaultError::Paused)));
    assert_eq!(vault.get_total_locked(), Amount::zero());
    vault.unpause(owner).unwrap();
    assert!(vault
        .lock_cspr(owner, Amount::from_u64(5000), String::from("eth"), String::from("0xabc"))
        .is_ok());
}

#[test]
fn lock_overflow_fails() {
    let owner = Address::Account([7; 32]);
    let mut vault = CasperVault::init(owner, 1, Amount::from_u64(0)).unwrap();
    let huge = Amount { words: [u64::MAX; 8] };
    vault.lock_cspr(owner, huge, String::from("eth"), String::from("0xabc")).unwrap();
    let r = vault.lock_cspr(owner, Amount::from_u64(1), String::from("eth"), String::from("0xabc"));
    assert!(matches!(r, Err(VaultError::Overflow)));
    assert_eq!(vault.get_total_locked(), huge);
    assert_eq!(vault.get_nonce(), 1);
}

#[test]
fn release_scenario_with_two_signatures() {
    let (mut vault, k1, k2) = funded_vault();
    let recipient = Address::Account([42; 32]);
    let proof = signed_proof(0, 5000, recipient, &[&k1, &k2]);
    let ev = vault.release_cspr(proof.clone()).unwrap();
    assert_eq!(vault.get_total_locked(), Amount::zero());
    assert!(vault.is_proof_processed(0));
    assert_eq!(ev.user, recipient);
    assert_eq!(ev.amount, Amount::from_u64(5000));
    assert_eq!(ev.source_chain, "ethereum");
    assert_eq!(ev.token_type, "CSPR");
    assert_eq!(ev.nonce, 0);
    let again = vault.release_cspr(proof);
    assert!(matches!(again, Err(VaultError::AlreadyProcessed)));
    assert_eq!(vault.get_total_locked(), Amount::zero());
}

#[test]
fn replay_fails_even_with_new_signatures() {
    let (mut vault, k1, k2) = funded_vault();
    let recipient = Address::Account([42; 32]);
    vault.release_cspr(signed_proof(3, 1000, recipient, &[&k1, &k2])).unwrap();
    let r = vault.release_cspr(signed_proof(3, 2000, recipient, &[&k2, &k1]));
    assert!(matches!(r, Err(VaultError::AlreadyProcessed)));
    assert_eq!(vault.get_total_locked(), Amount::from_u64(4000));
}

#[test]
fn release_with_one_valid_signature_fails() {
    let (mut vault, k1, _k2) = funded_vault();
    let recipient = Address::Account([42; 32]);
    let mut proof = signed_proof(0, 5000, recipient, &[&k1]);
    let r = vault.release_cspr(proof.clone());
    assert!(matches!(r, Err(VaultError::InsufficientSignatures)));
    // a second entry with a bad signature passes the entry count but not the quorum
    let mut bad = proof.validator_signatures[0].clone();
    bad.signature[0] ^= 1;
    bad.public_key = public_key_bytes(&signing_key(2));
    proof.validator_signatures.push(bad);
    let r = vault.release_cspr(proof);
    assert!(matches!(r, Err(VaultError::InsufficientSignatures)));
    assert_eq!(vault.get_total_locked(), Amount::from_u64(5000));
    assert!(!vault.is_proof_processed(0));
}

#[test]
fn duplicate_signer_counts_once() {
    let (mut vault, k1, _k2) = funded_vault();
    let recipient = Address::Account([42; 32]);
    let proof = signed_proof(0, 5000, recipient, &[&k1, &k1, &k1]);
    let r = vault.release_cspr(proof);
    assert!(matches!(r, Err(VaultError::InsufficientSignatures)));
    assert_eq!(vault.get_total_locked(), Amount::from_u64(5000));
}

#[test]
fn removed_validator_does_not_count() {
    let (mut vault, k1, k2) = funded_vault();
    let owner = account_of(&k1);
    vault.remove_validator(owner, account_of(&k2)).unwrap();
    assert!(!vault.is_validator(account_of(&k2)));
    let recipient = Address::Account([42; 32]);
    let r = vault.release_cspr(signed_proof(0, 5000, recipient, &[&k1, &k2]));
    assert!(matches!(r, Err(VaultError::InsufficientSignatures)));
    vault.add_validator(owner, account_of(&k2)).unwrap();
    assert!(vault.release_cspr(signed_proof(0, 5000, recipient, &[&k1, &k2])).is_ok());
}

#[test]
fn unregistered_signer_does_not_count() {
    let (mut vault, k1, _k2) = funded_vault();
    let k3 = signing_key(3);
    let recipient = Address::Account([42; 32]);
    let r = vault.release_cspr(signed_proof(0, 5000, recipient, &[&k1, &k3]));
    assert!(matches!(r, Err(VaultError::InsufficientSignatures)));
}

#[test]
fn malformed_entries_are_skipped() {
    let (mut vault, k1, k2) = funded_vault();
    let recipient = Address::Account([42; 32]);
    let mut proof = signed_proof(0, 5000, recipient, &[&k1, &k2]);
    let short_key = ValidatorSignature { public_key: vec![1, 2, 3], signature: vec![0; 64] };
    let short_sig = ValidatorSignature { public_key: public_key_bytes(&k1), signature: vec![0; 10] };
    proof.validator_signatures.insert(0, short_key);
    proof.validator_signatures.push(short_sig);
    assert!(vault.release_cspr(proof).is_ok());
    assert_eq!(vault.get_total_locked(), Amount::zero());
}

#[test]
fn signature_over_other_proof_does_not_count() {
    let (mut vault, k1, k2) = funded_vault();
    let recipient = Address::Account([42; 32]);
    let mut proof = signed_proof(0, 5000, recipient, &[&k1, &k2]);
    proof.amount = Amount::from_u64(4000);
    let r = vault.release_cspr(proof);
    assert!(matches!(r, Err(VaultError::InsufficientSignatures)));
}

#[test]
fn too_few_entries_fail_before_verification() {
    let (mut vault, _k1, _k2) = funded_vault();
    let r = vault.release_cspr(unsigned_proof(0, 10, Address::Account([42; 32])));
    assert!(matches!(r, Err(VaultError::InsufficientSignatures)));
}

#[test]
fn too_many_entries_fail() {
    let (mut vault, k1, k2) = funded_vault();
    let recipient = Address::Account([42; 32]);
    let mut proof = signed_proof(0, 5000, recipient, &[&k1, &k2]);
    while proof.validator_signatures.len() <= MAX_PROOF_SIGNATURES {
        let extra = proof.validator_signatures[0].clone();
        proof.validator_signatures.push(extra);
    }
    let r = vault.release_cspr(proof);
    assert!(matches!(r, Err(VaultError::TooManySignatures)));
    assert_eq!(vault.get_total_locked(), Amount::from_u64(5000));
}

#[test]
fn release_more_than_locked_fails() {
    let (mut vault, k1, k2) = funded_vault();
    let recipient = Address::Account([42; 32]);
    let r = vault.release_cspr(signed_proof(0, 5001, recipient, &[&k1, &k2]));
    assert!(matches!(r, Err(VaultError::InsufficientEscrow)));
    assert_eq!(vault.get_total_locked(), Amount::from_u64(5000));
    assert!(!vault.is_proof_processed(0));
}

#[test]
fn release_while_paused_fails() {
    let (mut vault, k1, k2) = funded_vault();
    vault.pause(account_of(&k1)).unwrap();
    let r = vault.release_cspr(signed_proof(0, 5000, Address::Account([42; 32]), &[&k1, &k2]));
    assert!(matches!(r, Err(VaultError::Paused)));
    assert_eq!(vault.get_total_locked(), Amount::from_u64(5000));
}

#[test]
fn threshold_change_applies_to_release() {
    let (mut vault, k1, _k2) = funded_vault();
    vault.set_required_signatures(account_of(&k1), 1).unwrap();
    assert_eq!(vault.get_required_signatures(), 1);
    let r = vault.release_cspr(signed_proof(5, 2500, Address::Account([42; 32]), &[&k1]));
    assert!(r.is_ok());
    assert_eq!(vault.get_total_locked(), Amount::from_u64(2500));
}

#[test]
fn admin_operations_are_owner_only() {
    let (mut vault, _k1, k2) = funded_vault();
    let stranger = Address::Account([99; 32]);
    assert!(matches!(vault.add_validator(stranger, stranger), Err(VaultError::Unauthorized)));
    assert!(!vault.is_validator(stranger));
    assert!(matches!(vault.remove_validator(stranger, account_of(&k2)), Err(VaultError::Unauthorized)));
    assert!(vault.is_validator(account_of(&k2)));
    assert!(matches!(vault.set_required_signatures(stranger, 1), Err(VaultError::Unauthorized)));
    assert_eq!(vault.get_required_signatures(), 2);
    assert!(matches!(vault.pause(stranger), Err(VaultError::Unauthorized)));
    assert!(!vault.is_paused());
    assert!(matches!(vault.unpause(stranger), Err(VaultError::Unauthorized)));
}

#[test]
fn zero_threshold_is_rejected() {
    let (mut vault, k1, _k2) = funded_vault();
    let r = vault.set_required_signatures(account_of(&k1), 0);
    assert!(matches!(r, Err(VaultError::InvalidConfiguration)));
    assert_eq!(vault.get_required_signatures(), 2);
}

#[test]
fn count_ignores_order_and_duplicates() {
    let k1 = signing_key(1);
    let k2 = signing_key(2);
    let validators = vec![account_of(&k1), account_of(&k2)];
    let proof = signed_proof(0, 5000, Address::Account([42; 32]), &[&k2, &k1, &k2]);
    let message = message_hash(&proof);
    assert_eq!(count_valid_signers(&proof.validator_signatures, &message, &validators), 2);
    let only_one = vec![account_of(&k1)];
    assert_eq!(count_valid_signers(&proof.validator_signatures, &message, &only_one), 1);
}

#[test]
fn account_matches_casper_derivation() {
    let k1 = signing_key(1);
    let bytes = public_key_bytes(&k1);
    let expected = casper_types::PublicKey::ed25519_from_bytes(&bytes).unwrap().to_account_hash().value();
    assert_eq!(account_of_public_key(&bytes), Some(Address::Account(expected)));
    assert_ne!(expected.to_vec(), bytes);
    assert_eq!(account_of_public_key(&vec![1, 2, 3]), None);
}

#[test]
fn encoding_layout_is_fixed() {
    let proof = BridgeProof {
        source_chain: String::from("ab"),
        source_tx_hash: String::from("c"),
        amount: Amount::from_u64(0x0102),
        recipient: Address::Contract([5; 32]),
        nonce: 0x0a0b,
        validator_signatures: Vec::new(),
    };
    let mut expected: Vec<u8> = vec![2, 0, 0, 0, 0, 0, 0, 0, b'a', b'b', 1, 0, 0, 0, 0, 0, 0, 0, b'c'];
    let mut amount = vec![0u8; 64];
    amount[0] = 0x02;
    amount[1] = 0x01;
    expected.extend(amount);
    expected.extend([0x0b, 0x0a, 0, 0, 0, 0, 0, 0]);
    expected.push(1);
    expected.extend([5u8; 32]);
    assert_eq!(encode_proof(&proof), expected);
}

#[test]
fn field_boundaries_change_the_message() {
    let mut a = unsigned_proof(1, 10, Address::Account([1; 32]));
    let mut b = a.clone();
    a.source_chain = String::from("ab");
    a.source_tx_hash = String::from("c");
    b.source_chain = String::from("a");
    b.source_tx_hash = String::from("bc");
    assert_ne!(encode_proof(&a), encode_proof(&b));
    assert_ne!(message_hash(&a), message_hash(&b));
}

#[test]
fn message_is_blake2b_of_encoding() {
    let proof = unsigned_proof(1, 10, Address::Account([1; 32]));
    let encoded = encode_proof(&proof);
    let digest = message_hash(&proof);
    assert_eq!(digest.len(), 32);
    assert_eq!(digest, casper_types::crypto::blake2b(&encoded).to_vec());
    assert_ne!(digest, encoded);
}

#[test]
fn amount_arithmetic() {
    let max = Amount { words: [u64::MAX; 8] };
    assert_eq!(max.checked_add(&Amount::from_u64(1)), None);
    assert_eq!(
        Amount::from_u64(u64::MAX).checked_add(&Amount::from_u64(1)),
        Some(Amount { words: [0, 1, 0, 0, 0, 0, 0, 0] })
    );
    assert_eq!(Amount::from_u64(3).checked_sub(&Amount::from_u64(5)), None);
    assert_eq!(Amount::from_u64(5).checked_sub(&Amount::from_u64(3)), Some(Amount::from_u64(2)));
    assert!(Amount::from_u64(3).lt(&Amount { words: [0, 1, 0, 0, 0, 0, 0, 0] }));
    assert!(!Amount { words: [0, 0, 0, 0, 0, 0, 0, 1] }.lt(&Amount { words: [u64::MAX, 0, 0, 0, 0, 0, 0, 0] }));
}

#[test]
fn address_identity() {
    let a = Address::Account([1; 32]);
    let c = Address::Contract([1; 32]);
    assert!(a.same_as(&Address::Account([1; 32])));
    assert!(!a.same_as(&c));
    assert!(!a.same_as(&Address::Account([2; 32])));
}

#[test]
fn requests_dispatch_to_operations() {
    let k1 = signing_key(1);
    let k2 = signing_key(2);
    let owner = account_of(&k1);
    let mut vault = CasperVault::init(owner, 2, Amount::from_u64(1000)).unwrap();
    let r = vault.handle(owner, Request::AddValidator(account_of(&k2)));
    assert!(matches!(r, Ok(Response::ValidatorAdded(ev)) if ev.validator == account_of(&k2)));
    let r = vault.handle(
        owner,
        Request::Lock {
            amount: Amount::from_u64(5000),
            destination_chain: String::from("eth"),
            destination_address: String::from("0xabc"),
        },
    );
    assert!(matches!(r, Ok(Response::Locked(ref ev)) if ev.nonce == 0));
    let stranger = Address::Account([99; 32]);
    assert!(matches!(vault.handle(stranger, Request::Pause), Err(VaultError::Unauthorized)));
    assert!(matches!(vault.handle(stranger, Request::SetRequiredSignatures(1)), Err(VaultError::Unauthorized)));
    let proof = signed_proof(0, 5000, Address::Account([42; 32]), &[&k1, &k2]);
    let r = vault.handle(stranger, Request::Release(proof.clone()));
    assert!(matches!(r, Ok(Response::Released(ref ev)) if ev.amount == Amount::from_u64(5000)));
    assert!(matches!(vault.handle(owner, Request::Release(proof)), Err(VaultError::AlreadyProcessed)));
    assert!(matches!(vault.handle(owner, Request::RemoveValidator(account_of(&k2))), Ok(Response::ValidatorRemoved(_))));
    assert!(matches!(vault.handle(owner, Request::SetRequiredSignatures(0)), Err(VaultError::InvalidConfiguration)));
    assert!(matches!(vault.handle(owner, Request::Pause), Ok(Response::Done)));
    assert!(vault.is_paused());
    assert!(matches!(vault.handle(owner, Request::Unpause), Ok(Response::Done)));
    assert!(!vault.is_paused());
    assert_eq!(vault.get_total_locked(), Amount::zero());
    assert_eq!(vault.get_nonce(), 1);
}

#[test]
fn tally_counts_distinct_active_signers() {
    let a = Address::Account([1; 32]);
    let b = Address::Account([2; 32]);
    let c = Address::Contract([1; 32]);
    let validators = vec![a, b];
    let signers = vec![Some(a), None, Some(a), Some(c), Some(b), Some(Address::Account([3; 32]))];
    assert_eq!(count_active_distinct(&signers, &validators), 2);
    assert_eq!(count_active_distinct(&vec![None, Some(c)], &validators), 0);
    assert_eq!(count_active_distinct(&Vec::new(), &validators), 0);
}

#[test]
fn entry_signer_resolves_valid_entries_only() {
    let k1 = signing_key(1);
    let proof = unsigned_proof(1, 10, Address::Account([1; 32]));
    let message = message_hash(&proof);
    let good = sign(&k1, &proof);
    assert_eq!(entry_signer(&good, &message), Some(account_of(&k1)));
    let mut tampered = good.clone();
    tampered.signature[10] ^= 0x40;
    assert_eq!(entry_signer(&tampered, &message), None);
    let short = ValidatorSignature { public_key: good.public_key.clone(), signature: good.signature[..63].to_vec() };
    assert_eq!(entry_signer(&short, &message), None);
    assert_eq!(entry_signer(&good, &encode_proof(&proof)), None);
}
