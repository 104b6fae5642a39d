//! A fresh elliptic-curve keypair on secp256k1, drawn from the OS random
//! source. The secret bytes are random and opaque, but the public key is a
//! deterministic function of them, named so contracts can tie an address
//! to the secret it belongs to.

use vstd::prelude::*;
use crate::byteops::copy_bytes;

verus! {

/// The 65-byte SEC1 uncompressed encoding (marker 0x04, then the two
/// 32-byte coordinates) of the secp256k1 public key belonging to a 32-byte
/// secret key: a pure function of the secret bytes.
pub uninterp spec fn secp256k1_public_of(sk: Seq<u8>) -> Seq<u8>;

/// Relies on secp256k1's `Secp256k1::generate_keypair` with the OS random
/// source, `secret_bytes` and `serialize_uncompressed`: the secret is a 32-
/// byte random scalar — nothing can be promised of its value — and the
/// public key is the uncompressed serialization, starting with 0x04, of
/// the point derived from exactly that secret.
#[verifier::external_body]
fn generate_bytes() -> (r: (Vec<u8>, Vec<u8>))
    ensures
        r.0@.len() == 32,
        r.1@.len() == 65,
        r.1@[0] == 4u8,
        r.1@ == secp256k1_public_of(r.0@),
{
    let engine = secp256k1::Secp256k1::new();
    let (secret_key, public_key) = engine.generate_keypair(&mut rand::rngs::OsRng);
    (secret_key.secret_bytes().to_vec(), public_key.serialize_uncompressed().to_vec())
}

pub struct Keypair {
    pub secret_key: Vec<u8>,
    pub public_key: Vec<u8>,
}

impl Keypair {
    /// A fresh keypair: a 32-byte secret and the public key derived from
    /// it.
    pub fn generate() -> (r: Self)
        ensures
            r.secret_key@.len() == 32,
            r.public_key@.len() == 65,
            r.public_key@ == secp256k1_public_of(r.secret_key@),
    {
        let (secret_key, public_key) = generate_bytes();
        Keypair { secret_key, public_key }
    }

    /// The 32 secret bytes.
    pub fn secret_key(&self) -> (r: Vec<u8>)
        ensures
            r@ == self.secret_key@,
    {
        copy_bytes(self.secret_key.as_slice())
    }

    /// The 65-byte uncompressed public key.
    pub fn public_key(&self) -> (r: Vec<u8>)
        ensures
            r@ == self.public_key@,
    {
        copy_bytes(self.public_key.as_slice())
    }
}

} // verus!
