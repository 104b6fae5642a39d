//! Account-hash pipeline over Keccak-256: drop the point-format marker from
//! the 65-byte public key, hash the 64 coordinate bytes, hex-encode the last
//! 20 digest bytes.

use vstd::prelude::*;
use crate::error::KsgenError;
use crate::hashes::{keccak256, keccak256_of};
use crate::hexcode::{hex_encode, hex_seq};
use crate::kp::derived_kp::KeypairDerived;
use crate::kp::secp256k1_kp::{secp256k1_public_of, Keypair};

verus! {

pub const ADDRESS_LEN_INTERNAL: usize = 40;

pub const ADDRESS_LEN: usize = ADDRESS_LEN_INTERNAL + 1;

/// The address characters: the hex encoding of bytes 12..32 of the
/// Keccak-256 digest of the public key without its leading marker byte.
pub open spec fn address_spec(pk: Seq<u8>) -> Seq<u8> {
    hex_seq(keccak256_of(pk.subrange(1, 65)).subrange(12, 32))
}

/// Derive the address for a given 65-byte public key: always exactly 40 hex
/// characters.
pub fn derive_address(public_key: &[u8]) -> (r: Vec<u8>)
    requires
        public_key@.len() == 65,
    ensures
        r@ == address_spec(public_key@),
        r@.len() == 40,
{
    let coords = vstd::slice::slice_subrange(public_key, 1, 65);
    let digest = keccak256(coords);
    let tail = vstd::slice::slice_subrange(digest.as_slice(), 12, 32);
    hex_encode(tail)
}

/// Generate a fresh elliptic-curve keypair and derive the address of its
/// public key — the public key belonging to exactly the returned secret.
pub fn get_keypair() -> (r: Result<KeypairDerived<40>, KsgenError>)
    ensures
        r matches Ok(kp) ==> {
            &&& kp.wf()
            &&& kp.addr() == address_spec(secp256k1_public_of(kp.secret_key@))
        },
        r.is_ok(),
{
    let kp = Keypair::generate();
    let secret_key = kp.secret_key();
    let public_key = kp.public_key();
    let address = derive_address(public_key.as_slice());
    Ok(KeypairDerived::new(secret_key, address))
}

} // verus!
