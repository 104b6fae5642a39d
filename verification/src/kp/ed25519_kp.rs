//! A fresh edwards-curve keypair, drawn from the OS random source through
//! ed25519_dalek. The secret bytes are random and opaque, but the public
//! key is a deterministic function of them, named so contracts can tie an
//! address to the secret it belongs to.

use vstd::prelude::*;
use crate::byteops::copy_bytes;

verus! {

/// The 32-byte compressed edwards point of the verifying key belonging to
/// a 32-byte signing key: a pure function of the secret bytes.
pub uninterp spec fn ed25519_public_of(sk: Seq<u8>) -> Seq<u8>;

/// Relies on ed25519_dalek's `SigningKey::generate` with the OS random
/// source, `to_bytes` and `verifying_key`: the secret is 32 fresh random
/// bytes — nothing can be promised of their value — and the public key is
/// the verifying key derived from exactly those bytes.
#[verifier::external_body]
fn generate_bytes() -> (r: (Vec<u8>, Vec<u8>))
    ensures
        r.0@.len() == 32,
        r.1@.len() == 32,
        r.1@ == ed25519_public_of(r.0@),
{
    let mut csprng = rand::rngs::OsRng;
    let signing_key = ed25519_dalek::SigningKey::generate(&mut csprng);
    (signing_key.to_bytes().to_vec(), signing_key.verifying_key().to_bytes().to_vec())
}

pub struct Keypair {
    pub secret_key: Vec<u8>,
    pub public_key: Vec<u8>,
}

impl Keypair {
    /// A fresh keypair: a 32-byte secret and the public key derived from
    /// it.
    pub fn generate() -> (r: Self)
        ensures
            r.secret_key@.len() == 32,
            r.public_key@.len() == 32,
            r.public_key@ == ed25519_public_of(r.secret_key@),
    {
        let (secret_key, public_key) = generate_bytes();
        Keypair { secret_key, public_key }
    }

    /// The 32 secret bytes.
    pub fn secret_key(&self) -> (r: Vec<u8>)
        ensures
            r@ == self.secret_key@,
    {
        copy_bytes(self.secret_key.as_slice())
    }

    /// The 32-byte compressed edwards public key.
    pub fn public_key(&self) -> (r: Vec<u8>)
        ensures
            r@ == self.public_key@,
    {
        copy_bytes(self.public_key.as_slice())
    }
}

} // verus!
