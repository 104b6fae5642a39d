//! Account-hash pipeline over SHA3-256: append the 0x00 scheme byte to the
//! 32-byte edwards public key, hash the 33 bytes, hex-encode the digest.

use vstd::prelude::*;
use crate::byteops::append_bytes;
use crate::error::KsgenError;
use crate::hashes::{sha3_256, sha3_256_of};
use crate::hexcode::{hex_encode, hex_seq};
use crate::kp::derived_kp::KeypairDerived;
use crate::kp::ed25519_kp::{ed25519_public_of, Keypair};

verus! {

pub const ADDRESS_LEN_INTERNAL: usize = 64;

pub const ADDRESS_LEN: usize = ADDRESS_LEN_INTERNAL + 1;

/// The address characters: the hex encoding of the SHA3-256 digest of the
/// public key followed by the 0x00 scheme byte.
pub open spec fn address_spec(pk: Seq<u8>) -> Seq<u8> {
    hex_seq(sha3_256_of(pk + seq![0u8]))
}

/// Derive the address for a given 32-byte public key: always exactly 64 hex
/// characters.
pub fn derive_address(public_key: &[u8]) -> (r: Vec<u8>)
    requires
        public_key@.len() == 32,
    ensures
        r@ == address_spec(public_key@),
        r@.len() == 64,
{
    let mut buf: Vec<u8> = Vec::new();
    append_bytes(&mut buf, public_key);
    buf.push(0u8);
    proof {
        assert(buf@ =~= public_key@ + seq![0u8]);
    }
    let digest = sha3_256(buf.as_slice());
    hex_encode(digest.as_slice())
}

/// Generate a fresh edwards keypair and derive the address of its public
/// key — the public key belonging to exactly the returned secret.
pub fn get_keypair() -> (r: Result<KeypairDerived<64>, KsgenError>)
    ensures
        r matches Ok(kp) ==> {
            &&& kp.wf()
            &&& kp.addr() == address_spec(ed25519_public_of(kp.secret_key@))
        },
        r.is_ok(),
{
    let kp = Keypair::generate();
    let secret_key = kp.secret_key();
    let public_key = kp.public_key();
    let address = derive_address(public_key.as_slice());
    Ok(KeypairDerived::new(secret_key, address))
}

} // verus!
