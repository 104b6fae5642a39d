//! UTXO-style pipeline: RIPEMD-160 of the SHA-256 of the 65-byte
//! uncompressed public key, a leading network version byte, then
//! Base58Check into a 34-byte zero-padded buffer.

use vstd::prelude::*;
use crate::bs58_check::{base58_of, bs58_check, checksum4};
use crate::byteops::{append_bytes, lemma_padded_from_parts, lemma_unpadded_len_of_padded,
    unpadded_len, zero_bytes, zero_padded};
use crate::error::KsgenError;
use crate::hashes::{ripemd160, ripemd160_of, sha256, sha256_of};
use crate::kp::derived_kp::KeypairDerived;
use crate::kp::secp256k1_kp::{secp256k1_public_of, Keypair};

verus! {

pub const ADDRESS_LEN_INTERNAL: usize = 34;

pub const ADDRESS_LEN: usize = ADDRESS_LEN_INTERNAL + 1;

/// The 21-byte pre-checksum payload: the network version byte, then the
/// 20-byte RIPEMD-160 digest of the SHA-256 digest of the public key.
pub open spec fn payload_spec(version_byte: u8, pk: Seq<u8>) -> Seq<u8> {
    seq![version_byte] + ripemd160_of(sha256_of(pk))
}

/// The address characters: Base58Check of the payload.
pub open spec fn address_spec(version_byte: u8, pk: Seq<u8>) -> Seq<u8> {
    base58_of(payload_spec(version_byte, pk) + checksum4(payload_spec(version_byte, pk)))
}

/// Derive the address for a given 65-byte public key under a version byte.
/// Fails with `EncodingError` exactly when the base58 characters do not fit
/// the 34-byte buffer; on success the buffer is the characters followed by
/// zero padding.
pub fn derive_address(version_byte: u8, public_key: &[u8]) -> (r: Result<Vec<u8>, KsgenError>)
    requires
        public_key@.len() == 65,
    ensures
        r.is_ok() <==> address_spec(version_byte, public_key@).len() <= 34,
        r matches Ok(a) ==> {
            let enc = address_spec(version_byte, public_key@);
            &&& a@ == zero_padded(enc, 34)
            &&& a@.len() == 34
            &&& unpadded_len(a@) == enc.len()
            &&& a@.subrange(0, enc.len() as int) == enc
        },
        r matches Err(e) ==> e == KsgenError::EncodingError,
{
    let h1 = sha256(public_key);
    let h2 = ripemd160(h1.as_slice());
    let mut payload: Vec<u8> = Vec::new();
    payload.push(version_byte);
    append_bytes(&mut payload, h2.as_slice());
    payload.push(0u8);
    payload.push(0u8);
    payload.push(0u8);
    payload.push(0u8);
    let ghost pre = payload@;
    let mut out = zero_bytes(ADDRESS_LEN_INTERNAL);
    let res = bs58_check(&mut payload, &mut out);
    proof {
        assert(pre.subrange(0, pre.len() - 4) =~= payload_spec(version_byte, public_key@));
    }
    match res {
        Ok(()) => {
            proof {
                let enc = address_spec(version_byte, public_key@);
                assert forall|i: int| enc.len() <= i < 34 implies out@[i] == 0 by {
                    assert(out@.subrange(enc.len() as int, 34)[i - enc.len()] == out@[i]);
                }
                lemma_padded_from_parts(out@, enc, 34);
                assert forall|i: int| 0 <= i < enc.len() implies enc[i] != 0 by {
                    assert(out@.subrange(0, enc.len() as int)[i] == out@[i]);
                }
                lemma_unpadded_len_of_padded(enc, 34);
            }
            Ok(out)
        },
        Err(e) => Err(e),
    }
}

/// Generate a fresh elliptic-curve keypair and derive, under the given
/// version byte, the address of its public key — the public key belonging
/// to exactly the returned secret.
pub fn get_keypair_internal(version_byte: u8) -> (r: Result<
    KeypairDerived<34>,
    KsgenError,
>)
    ensures
        r matches Ok(kp) ==> {
            &&& kp.wf()
            &&& address_spec(version_byte, secp256k1_public_of(kp.secret_key@)).len() <= 34
            &&& kp.addr() == zero_padded(
                address_spec(version_byte, secp256k1_public_of(kp.secret_key@)),
                34,
            )
        },
        r matches Err(e) ==> e == KsgenError::EncodingError,
{
    let kp = Keypair::generate();
    let secret_key = kp.secret_key();
    let public_key = kp.public_key();
    let address = match derive_address(version_byte, public_key.as_slice()) {
        Ok(a) => a,
        Err(e) => {
            return Err(e);
        },
    };
    Ok(KeypairDerived::new(secret_key, address))
}

/// Generate a fresh keypair and derive its address under version byte 0x00.
pub fn get_keypair() -> (r: Result<KeypairDerived<34>, KsgenError>)
    ensures
        r matches Ok(kp) ==> {
            &&& kp.wf()
            &&& address_spec(0x00u8, secp256k1_public_of(kp.secret_key@)).len() <= 34
            &&& kp.addr() == zero_padded(
                address_spec(0x00u8, secp256k1_public_of(kp.secret_key@)),
                34,
            )
        },
        r matches Err(e) ==> e == KsgenError::EncodingError,
{
    get_keypair_internal(0x00)
}

} // verus!
