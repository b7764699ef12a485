//! Deposit and settlement ids: lowercase hex of SHA-256 digests computed by
//! the Soroban host.
use vstd::prelude::*;
use soroban_sdk::{Bytes, Env};
use crate::bytes::{be_bytes_u32, be_bytes_u64, hex_encode, hex_encode_bytes, push_be_u32, push_be_u64};

verus! {

/// The Soroban host environment of a contract call.
#[verifier::external_type_specification]
#[verifier::external_body]
pub struct ExEnv(soroban_sdk::Env);

/// The SHA-256 digest of the data, as computed by the Soroban host.
pub uninterp spec fn sha256_digest(data: Seq<u8>) -> Seq<u8>;

/// Calls `soroban_sdk::crypto::Crypto::sha256` through the host of the
/// call and hands back the digest bytes. Claimed: the digest is
/// `sha256_digest` of the data; nothing is claimed of its value beyond that
/// name.
#[verifier::external_body]
fn sha256(env: &Env, data: &[u8]) -> (digest: [u8; 32])
    requires
        data@.len() <= 256,
    ensures
        digest@ == sha256_digest(data@),
{
    env.crypto().sha256(&Bytes::from_slice(env, data)).to_array()
}

/// The id of the deposit made for an anchor transaction id: the lowercase
/// hex of the SHA-256 digest of its bytes.
pub open spec fn tx_id_of(anchor_transaction_id: Seq<u8>) -> Seq<u8> {
    hex_encode(sha256_digest(anchor_transaction_id))
}

/// The bytes that a settlement id is derived from: ledger timestamp, ledger
/// sequence and counter, each big-endian.
pub open spec fn settlement_seed(timestamp: u64, sequence: u32, nonce: u32) -> Seq<u8> {
    be_bytes_u64(timestamp) + be_bytes_u32(sequence) + be_bytes_u32(nonce)
}

/// A settlement id: the lowercase hex of the first 16 bytes of the SHA-256
/// digest of its seed.
pub open spec fn settlement_id_of(timestamp: u64, sequence: u32, nonce: u32) -> Seq<u8> {
    hex_encode(sha256_digest(settlement_seed(timestamp, sequence, nonce)).take(16))
}

/// Derives the deposit id of an anchor transaction id.
pub fn tx_id_from_anchor(env: &Env, anchor_transaction_id: &Vec<u8>) -> (id: Vec<u8>)
    requires
        anchor_transaction_id@.len() <= 256,
    ensures
        id@ == tx_id_of(anchor_transaction_id@),
        id@.len() == 64,
{
    let digest = sha256(env, anchor_transaction_id.as_slice());
    let id = hex_encode_bytes(digest.as_slice(), 32);
    assert(digest@.take(32) =~= digest@);
    id
}

/// Derives a settlement id from the ledger timestamp and sequence and the
/// counter value.
pub fn settlement_id_from(env: &Env, timestamp: u64, sequence: u32, nonce: u32) -> (id: Vec<u8>)
    ensures
        id@ == settlement_id_of(timestamp, sequence, nonce),
        id@.len() == 32,
{
    let mut data: Vec<u8> = Vec::new();
    push_be_u64(&mut data, timestamp);
    push_be_u32(&mut data, sequence);
    push_be_u32(&mut data, nonce);
    assert(data@ =~= settlement_seed(timestamp, sequence, nonce));
    let digest = sha256(env, data.as_slice());
    hex_encode_bytes(digest.as_slice(), 16)
}

} // verus!
