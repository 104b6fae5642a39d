//! The UTXO-style pipeline of the bitcoin module with version byte 0x30.

use vstd::prelude::*;
use crate::byteops::zero_padded;
use crate::error::KsgenError;
use crate::kp::derived_kp::KeypairDerived;
use crate::kp::secp256k1_kp::secp256k1_public_of;
use super::bitcoin;

verus! {

pub const ADDRESS_LEN_INTERNAL: usize = bitcoin::ADDRESS_LEN_INTERNAL;

pub const ADDRESS_LEN: usize = bitcoin::ADDRESS_LEN;

/// Generate a fresh keypair and derive its address under version byte 0x30.
pub fn get_keypair() -> (r: Result<KeypairDerived<34>, KsgenError>)
    ensures
        r matches Ok(kp) ==> {
            &&& kp.wf()
            &&& bitcoin::address_spec(0x30u8, secp256k1_public_of(kp.secret_key@)).len() <= 34
            &&& kp.addr() == zero_padded(
                bitcoin::address_spec(0x30u8, secp256k1_public_of(kp.secret_key@)),
                34,
            )
        },
        r matches Err(e) ==> e == KsgenError::EncodingError,
{
    bitcoin::get_keypair_internal(0x30)
}

} // verus!
