//! Pure-base58 pipeline: the 32-byte edwards public key base58-encoded
//! directly, no hashing, into a 44-byte zero-padded buffer.

use vstd::prelude::*;
use crate::bs58_check::{base58_encode_onto, base58_of};
use crate::byteops::{lemma_padded_from_parts, lemma_unpadded_len_of_padded, unpadded_len,
    zero_bytes, zero_padded};
use crate::error::KsgenError;
use crate::kp::derived_kp::KeypairDerived;
use crate::kp::ed25519_kp::{ed25519_public_of, Keypair};

verus! {

pub const ADDRESS_LEN_INTERNAL: usize = 44;

pub const ADDRESS_LEN: usize = ADDRESS_LEN_INTERNAL + 1;

/// The address characters: the base58 encoding of the raw public key.
pub open spec fn address_spec(pk: Seq<u8>) -> Seq<u8> {
    base58_of(pk)
}

/// Derive the address for a given 32-byte public key. Fails with
/// `EncodingError` exactly when the base58 characters do not fit the
/// 44-byte buffer; on success the buffer is the characters followed by zero
/// padding.
pub fn derive_address(public_key: &[u8]) -> (r: Result<Vec<u8>, KsgenError>)
    requires
        public_key@.len() == 32,
    ensures
        r.is_ok() <==> address_spec(public_key@).len() <= 44,
        r matches Ok(a) ==> {
            let enc = address_spec(public_key@);
            &&& a@ == zero_padded(enc, 44)
            &&& a@.len() == 44
            &&& unpadded_len(a@) == enc.len()
            &&& a@.subrange(0, enc.len() as int) == enc
        },
        r matches Err(e) ==> e == KsgenError::EncodingError,
{
    let mut out = zero_bytes(ADDRESS_LEN_INTERNAL);
    let res = base58_encode_onto(public_key, &mut out);
    match res {
        Ok(_) => {
            proof {
                let enc = base58_of(public_key@);
                assert forall|i: int| enc.len() <= i < 44 implies out@[i] == 0 by {
                    assert(out@.subrange(enc.len() as int, 44)[i - enc.len()] == out@[i]);
                }
                lemma_padded_from_parts(out@, enc, 44);
                assert forall|i: int| 0 <= i < enc.len() implies enc[i] != 0 by {
                    assert(out@.subrange(0, enc.len() as int)[i] == out@[i]);
                }
                lemma_unpadded_len_of_padded(enc, 44);
            }
            Ok(out)
        },
        Err(e) => Err(e),
    }
}

/// Generate a fresh edwards keypair and derive the address of its public
/// key — the public key belonging to exactly the returned secret.
pub fn get_keypair() -> (r: Result<KeypairDerived<44>, KsgenError>)
    ensures
        r matches Ok(kp) ==> {
            &&& kp.wf()
            &&& address_spec(ed25519_public_of(kp.secret_key@)).len() <= 44
            &&& kp.addr() == zero_padded(address_spec(ed25519_public_of(kp.secret_key@)), 44)
        },
        r matches Err(e) ==> e == KsgenError::EncodingError,
{
    let kp = Keypair::generate();
    let secret_key = kp.secret_key();
    let public_key = kp.public_key();
    let address = match derive_address(public_key.as_slice()) {
        Ok(a) => a,
        Err(e) => {
            return Err(e);
        },
    };
    Ok(KeypairDerived::new(secret_key, address))
}

} // verus!
