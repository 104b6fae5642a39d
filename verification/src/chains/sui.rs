//! Account-hash pipeline over Blake2b: the 0x00 scheme byte, then the
//! 32-byte edwards public key, hashed with 32-byte Blake2b and hex-encoded.

use vstd::prelude::*;
use crate::byteops::append_bytes;
use crate::error::KsgenError;
use crate::hashes::{blake2b256, blake2b256_of};
use crate::hexcode::{hex_encode, hex_seq};
use crate::kp::derived_kp::KeypairDerived;
use crate::kp::ed25519_kp::{ed25519_public_of, Keypair};

verus! {

pub const ADDRESS_LEN_INTERNAL: usize = 64;

pub const ADDRESS_LEN: usize = ADDRESS_LEN_INTERNAL + 1;

/// The address characters: the hex encoding of the Blake2b digest of the
/// 0x00 scheme byte followed by the public key.
pub open spec fn address_spec(pk: Seq<u8>) -> Seq<u8> {
    hex_seq(blake2b256_of(seq![0u8] + pk))
}

/// Derive the address for a given 32-byte public key: always exactly 64 hex
/// characters.
pub fn derive_address(public_key: &[u8]) -> (r: Vec<u8>)
    requires
        public_key@.len() == 32,
    ensures
        r@ == address_spec(public_key@),
        r@.len() == 64,
{
    let mut buf: Vec<u8> = Vec::new();
    buf.push(0u8);
    append_bytes(&mut buf, public_key);
    proof {
        assert(buf@ =~= seq![0u8] + public_key@);
    }
    let digest = blake2b256(buf.as_slice());
    hex_encode(digest.as_slice())
}

/// Generate a fresh edwards keypair and derive the address of its public
/// key — the public key belonging to exactly the returned secret.
pub fn get_keypair() -> (r: Result<KeypairDerived<64>, KsgenError>)
    ensures
        r matches Ok(kp) ==> {
            &&& kp.wf()
            &&& kp.addr() == address_spec(ed25519_public_of(kp.secret_key@))
        },
        r.is_ok(),
{
    let kp = Keypair::generate();
    let secret_key = kp.secret_key();
    let public_key = kp.public_key();
    let address = derive_address(public_key.as_slice());
    Ok(KeypairDerived::new(secret_key, address))
}

} // verus!
