//! The core's face toward the call boundary: the network selector, the
//! fixed lengths of every output field, capacity validation, and the
//! dispatch that turns a network and a password into an address and an
//! encrypted keystore record.

use vstd::prelude::*;
use crate::byteops::zero_padded;
use crate::chains::{aptos, bitcoin, ethereum, litecoin, solana, sui, tron};
use crate::error::KsgenError;
use crate::keystore::{record_accepts, record_plaintext, KeystoreInternal};
use crate::kp::ed25519_kp::ed25519_public_of;
use crate::kp::secp256k1_kp::secp256k1_public_of;

verus! {

pub const CIPHER_LEN: usize = 11 + 1;

pub const IV_LEN: usize = 32 + 1;

pub const CIPHERTEXT_LEN: usize = 64 + 1;

pub const KDF_LEN: usize = 6 + 1;

pub const SALT_LEN: usize = 32 + 1;

pub const MAC_LEN: usize = 64 + 1;

#[derive(Clone, Copy, Debug, PartialEq, Eq, Structural)]
pub enum Network {
    Aptos,
    Bitcoin,
    Ethereum,
    Litecoin,
    Solana,
    Sui,
    Tron,
}

/// The fixed capacity a caller-supplied address buffer must have for a
/// network: the address characters plus one trailing byte.
pub open spec fn spec_address_len(network: Network) -> int {
    match network {
        Network::Aptos => 65,
        Network::Bitcoin => 35,
        Network::Ethereum => 41,
        Network::Litecoin => 35,
        Network::Solana => 45,
        Network::Sui => 65,
        Network::Tron => 35,
    }
}

impl Network {
    /// The required address-buffer capacity for this network.
    pub fn address_len(&self) -> (r: usize)
        ensures
            r == spec_address_len(*self),
    {
        match *self {
            Network::Aptos => aptos::ADDRESS_LEN,
            Network::Bitcoin => bitcoin::ADDRESS_LEN,
            Network::Ethereum => ethereum::ADDRESS_LEN,
            Network::Litecoin => litecoin::ADDRESS_LEN,
            Network::Solana => solana::ADDRESS_LEN,
            Network::Sui => sui::ADDRESS_LEN,
            Network::Tron => tron::ADDRESS_LEN,
        }
    }
}

/// A buffer capacity is accepted exactly when it equals the expected fixed
/// length; otherwise the mismatch is reported against the named field.
pub fn validate_len(expected_len: usize, actual_len: usize, field_name: &str) -> (r: Result<
    (),
    KsgenError,
>)
    ensures
        r.is_ok() <==> actual_len == expected_len,
        r matches Err(e) ==> (e matches KsgenError::BufferLengthMismatchError {
            input_len: il,
            output_len: ol,
            field_name: fnm,
        } && il == expected_len && ol == actual_len && fnm@ == field_name@),
{
    if actual_len != expected_len {
        return Err(KsgenError::invalid_output(expected_len, actual_len, field_name.to_owned()));
    }
    Ok(())
}

/// The address belonging to a secret key on a network: the fixed-length
/// (possibly zero-padded) derivation of the public key that the network's
/// key scheme assigns to exactly that secret.
pub open spec fn wallet_matches(network: Network, secret: Seq<u8>, addr: Seq<u8>) -> bool {
    match network {
        Network::Aptos => addr == aptos::address_spec(ed25519_public_of(secret)),
        Network::Bitcoin => addr == zero_padded(
            bitcoin::address_spec(0x00u8, secp256k1_public_of(secret)),
            34,
        ),
        Network::Ethereum => addr == ethereum::address_spec(secp256k1_public_of(secret)),
        Network::Litecoin => addr == zero_padded(
            bitcoin::address_spec(0x30u8, secp256k1_public_of(secret)),
            34,
        ),
        Network::Solana => addr == zero_padded(solana::address_spec(ed25519_public_of(secret)), 44),
        Network::Sui => addr == sui::address_spec(ed25519_public_of(secret)),
        Network::Tron => addr == zero_padded(tron::address_spec(secp256k1_public_of(secret)), 34),
    }
}

/// Every produced address, stripped of its trailing zero padding, is at
/// most as long as the network's fixed constant; for the hex-encoded
/// networks, whose characters never include the zero byte and always fill
/// the buffer, the stripped length equals the constant exactly.
pub proof fn lemma_address_padding(network: Network, secret: Seq<u8>, addr: Seq<u8>)
    requires
        wallet_matches(network, secret, addr),
        addr.len() == spec_address_len(network) - 1,
    ensures
        crate::byteops::unpadded_len(addr) <= spec_address_len(network) - 1,
        (network == Network::Aptos || network == Network::Ethereum || network == Network::Sui)
            ==> crate::byteops::unpadded_len(addr) == spec_address_len(network) - 1,
{
    crate::byteops::lemma_unpadded_len_le(addr);
    match network {
        Network::Aptos => {
            crate::hexcode::lemma_hex_seq_ascii(
                crate::hashes::sha3_256_of(ed25519_public_of(secret) + seq![0u8]),
            );
            crate::byteops::lemma_unpadded_len_at(addr, addr.len() as int);
        },
        Network::Ethereum => {
            crate::hexcode::lemma_hex_seq_ascii(
                crate::hashes::keccak256_of(
                    secp256k1_public_of(secret).subrange(1, 65),
                ).subrange(12, 32),
            );
            crate::byteops::lemma_unpadded_len_at(addr, addr.len() as int);
        },
        Network::Sui => {
            crate::hexcode::lemma_hex_seq_ascii(
                crate::hashes::blake2b256_of(seq![0u8] + ed25519_public_of(secret)),
            );
            crate::byteops::lemma_unpadded_len_at(addr, addr.len() as int);
        },
        _ => {},
    }
}

/// Generate a fresh keypair for the network, derive its address, and
/// encrypt its secret key under the password. On success the address fills
/// exactly the network's buffer (less the trailing byte), the record is a
/// well-formed keystore that the same password opens, and what it decrypts
/// to is exactly the secret whose public key produced the address. For the
/// hex-encoded networks nothing can fail; the base58 networks fail only
/// when the encoding outgrows its fixed buffer.
pub fn generate_wallet(network: Network, password: &[u8]) -> (res: Result<
    (Vec<u8>, KeystoreInternal<'static>),
    KsgenError,
>)
    ensures
        res matches Ok(w) ==> {
            &&& w.0@.len() == spec_address_len(network) - 1
            &&& w.1.wf()
            &&& record_accepts(w.1, password@)
            &&& record_plaintext(w.1, password@).len() == 32
            &&& wallet_matches(network, record_plaintext(w.1, password@), w.0@)
        },
        res matches Err(e) ==> e == KsgenError::EncodingError,
        (network == Network::Aptos || network == Network::Ethereum || network == Network::Sui)
            ==> res.is_ok(),
{
    let kp_secret: Vec<u8>;
    let address: Vec<u8>;
    match network {
        Network::Aptos => {
            let kp = match aptos::get_keypair() {
                Ok(kp) => kp,
                Err(e) => {
                    return Err(e);
                },
            };
            kp_secret = kp.secret_key;
            address = kp.address;
        },
        Network::Bitcoin => {
            let kp = match bitcoin::get_keypair() {
                Ok(kp) => kp,
                Err(e) => {
                    return Err(e);
                },
            };
            kp_secret = kp.secret_key;
            address = kp.address;
        },
        Network::Ethereum => {
            let kp = match ethereum::get_keypair() {
                Ok(kp) => kp,
                Err(e) => {
                    return Err(e);
                },
            };
            kp_secret = kp.secret_key;
            address = kp.address;
        },
        Network::Litecoin => {
            let kp = match litecoin::get_keypair() {
                Ok(kp) => kp,
                Err(e) => {
                    return Err(e);
                },
            };
            kp_secret = kp.secret_key;
            address = kp.address;
        },
        Network::Solana => {
            let kp = match solana::get_keypair() {
                Ok(kp) => kp,
                Err(e) => {
                    return Err(e);
                },
            };
            kp_secret = kp.secret_key;
            address = kp.address;
        },
        Network::Sui => {
            let kp = match sui::get_keypair() {
                Ok(kp) => kp,
                Err(e) => {
                    return Err(e);
                },
            };
            kp_secret = kp.secret_key;
            address = kp.address;
        },
        Network::Tron => {
            let kp = match tron::get_keypair() {
                Ok(kp) => kp,
                Err(e) => {
                    return Err(e);
                },
            };
            kp_secret = kp.secret_key;
            address = kp.address;
        },
    }
    let ghost secret_bytes = kp_secret@;
    let keystore = match KeystoreInternal::from_secret_key(kp_secret, password) {
        Ok(k) => k,
        Err(e) => {
            return Err(e);
        },
    };
    proof {
        assert(secret_bytes.len() == 32 && record_plaintext(keystore, password@) == secret_bytes);
    }
    Ok((address, keystore))
}

} // verus!
