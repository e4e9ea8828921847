//! Release proofs and the digest that validators sign over them.

use vstd::prelude::*;
use vstd::utf8::encode_utf8;
use crate::address::{Address, AddressView};
use crate::amount::Amount;

verus! {

/// One validator's attestation: a 32-byte Ed25519 public key and a 64-byte
/// signature over the digest of a proof.
#[derive(Clone, Debug, PartialEq, Eq)]
pub struct ValidatorSignature {
    pub public_key: Vec<u8>,
    pub signature: Vec<u8>,
}

/// Evidence, assembled by a relayer, that assets were burned or locked on the
/// counterpart chain and may be released here.
#[derive(Clone, Debug, PartialEq, Eq)]
pub struct BridgeProof {
    pub source_chain: String,
    pub source_tx_hash: String,
    pub amount: Amount,
    pub recipient: Address,
    pub nonce: u64,
    pub validator_signatures: Vec<ValidatorSignature>,
}

/// The low `n` bytes of `x`, least significant first.
pub open spec fn le_bytes(x: u64, n: nat) -> Seq<u8> {
    Seq::new(n, |i: int| ((x >> ((8 * i) as u64)) & 0xff) as u8)
}

/// A variable-length field: its length as eight little-endian bytes, then its bytes.
pub open spec fn field_bytes(b: Seq<u8>) -> Seq<u8> {
    le_bytes(b.len() as u64, 8) + b
}

/// Each word as eight little-endian bytes, in order.
pub open spec fn words_bytes(ws: Seq<u64>) -> Seq<u8>
    decreases ws.len(),
{
    if ws.len() == 0 {
        Seq::empty()
    } else {
        words_bytes(ws.drop_last()) + le_bytes(ws.last(), 8)
    }
}

/// An identity as one tag byte (0 account, 1 contract) followed by its hash.
pub open spec fn address_bytes(a: AddressView) -> Seq<u8> {
    seq![if a.0 { 1u8 } else { 0u8 }] + a.1
}

/// The unambiguous encoding of the fields of a proof that validators attest to:
/// source chain and source transaction (length-prefixed UTF-8), amount (64
/// bytes), nonce (8 bytes) and recipient (33 bytes).
pub open spec fn proof_encoding(p: &BridgeProof) -> Seq<u8> {
    field_bytes(encode_utf8(p.source_chain@)) + field_bytes(encode_utf8(p.source_tx_hash@))
        + words_bytes(p.amount.words@) + le_bytes(p.nonce, 8) + address_bytes(p.recipient@)
}

/// What casper_types' BLAKE2b-256 returns on `data`.
pub uninterp spec fn blake2b_256(data: Seq<u8>) -> Seq<u8>;

/// The message every validator must have signed for `p`.
pub open spec fn proof_message(p: &BridgeProof) -> Seq<u8> {
    blake2b_256(proof_encoding(p))
}

/// Relies on `casper_types::crypto::blake2b`: the 32-byte BLAKE2b digest of `data`.
#[verifier::external_body]
fn blake2b_digest(data: &[u8]) -> (r: Vec<u8>)
    ensures
        r@ == blake2b_256(data@),
        r@.len() == 32,
{
    casper_types::crypto::blake2b(data).to_vec()
}

/// Appends the low `n` bytes of `x`, least significant first.
fn push_le(out: &mut Vec<u8>, x: u64, n: u64)
    requires
        n <= 8,
    ensures
        final(out)@ == old(out)@ + le_bytes(x, n as nat),
{
    let mut k: u64 = 0;
    while k < n
        invariant
            0 <= k <= n <= 8,
            out@ == old(out)@ + le_bytes(x, k as nat),
        decreases n - k,
    {
        let b = ((x >> (8 * k)) & 0xff) as u8;
        proof {
            assert(le_bytes(x, (k + 1) as nat) =~= le_bytes(x, k as nat).push(b));
        }
        out.push(b);
        k = k + 1;
    }
}

/// Appends the bytes of `b`.
fn push_bytes(out: &mut Vec<u8>, b: &[u8])
    ensures
        final(out)@ == old(out)@ + b@,
{
    let mut i: usize = 0;
    while i < b.len()
        invariant
            0 <= i <= b@.len(),
            out@ == old(out)@ + b@.subrange(0, i as int),
        decreases b@.len() - i,
    {
        proof {
            assert(b@.subrange(0, i + 1) =~= b@.subrange(0, i as int).push(b@[i as int]));
        }
        out.push(b[i]);
        i = i + 1;
    }
    assert(b@.subrange(0, b@.len() as int) =~= b@);
}

/// Appends `b` as a length-prefixed field.
fn push_field(out: &mut Vec<u8>, b: &[u8])
    ensures
        final(out)@ == old(out)@ + field_bytes(b@),
{
    push_le(out, b.len() as u64, 8);
    push_bytes(out, b);
    assert(final(out)@ =~= old(out)@ + field_bytes(b@));
}

/// The encoding of a proof, as `proof_encoding` gives it.
pub fn encode_proof(p: &BridgeProof) -> (r: Vec<u8>)
    ensures
        r@ == proof_encoding(p),
{
    let mut out: Vec<u8> = Vec::new();
    push_field(&mut out, p.source_chain.as_str().as_bytes());
    push_field(&mut out, p.source_tx_hash.as_str().as_bytes());
    let ghost head = out@;
    let mut i: usize = 0;
    while i < 8
        invariant
            0 <= i <= 8,
            p.amount.words@.len() == 8,
            out@ == head + words_bytes(p.amount.words@.take(i as int)),
        decreases 8 - i,
    {
        proof {
            let ws = p.amount.words@.take(i + 1);
            assert(ws.drop_last() =~= p.amount.words@.take(i as int));
        }
        push_le(&mut out, p.amount.words[i], 8);
        i = i + 1;
    }
    assert(p.amount.words@.take(8) =~= p.amount.words@);
    push_le(&mut out, p.nonce, 8);
    let (tag, hash): (u8, &[u8; 32]) = match &p.recipient {
        Address::Account(h) => (0u8, h),
        Address::Contract(h) => (1u8, h),
    };
    out.push(tag);
    push_bytes(&mut out, hash.as_slice());
    assert(out@ =~= proof_encoding(p));
    out
}

/// The digest that validators sign for `proof`.
pub fn message_hash(proof: &BridgeProof) -> (r: Vec<u8>)
    ensures
        r@ == proof_message(proof),
        r@.len() == 32,
{
    let encoded = encode_proof(proof);
    blake2b_digest(encoded.as_slice())
}

} // verus!
