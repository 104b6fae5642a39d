//! Keystore encryption: an independent recomputation of the whole record,
//! plus round-trip, tamper and KDF-parameter checks.

use aes::Aes128;
use ctr::cipher::{KeyIvInit, StreamCipher};
use ksgen::error::KsgenError;
use ksgen::keystore::KeystoreInternal;
use sha3::Digest;

type Aes128Ctr128BE = ctr::Ctr128BE<Aes128>;

#[test]
fn test_keystore() {
    let password = b"STRONG_PASSWORD";
    let secret_key: [u8; 32] = rand::random();

    let keystore = KeystoreInternal::from_secret_key(secret_key.to_vec(), password).unwrap();
    let ciphertext_hex = keystore.ciphertext_hex_encoded().unwrap();
    let iv_hex = keystore.cipherparams.iv_hex_encoded().unwrap();

    let kdfparams = &keystore.kdfparams;
    let scrypt_params =
        scrypt::Params::new(kdfparams.n, kdfparams.r, kdfparams.p, kdfparams.dklen).unwrap();

    let mut password_hash = [0u8; 16];
    scrypt::scrypt(password, &kdfparams.salt, &scrypt_params, &mut password_hash).unwrap();

    let mut secret_key_output = [0; 32];
    hex::decode_to_slice(ciphertext_hex, &mut secret_key_output).unwrap();

    let mut iv = [0; 16];
    hex::decode_to_slice(iv_hex, &mut iv).unwrap();

    let mut cipher = Aes128Ctr128BE::new(&password_hash.into(), &iv.into());
    cipher.apply_keystream(&mut secret_key_output);

    assert_eq!(secret_key, secret_key_output);
}

#[test]
fn test_keystore_decrypt_round_trip() {
    let secret_key = vec![7u8; 32];
    let password = b"correct horse battery staple";

    let keystore = KeystoreInternal::from_secret_key(secret_key.clone(), password).unwrap();
    let recovered = keystore.decrypt(password).unwrap();

    assert_eq!(recovered, secret_key);
}

#[test]
fn test_keystore_wrong_password_rejected() {
    let secret_key = vec![9u8; 32];

    let keystore = KeystoreInternal::from_secret_key(secret_key, b"right password").unwrap();
    let res = keystore.decrypt(b"wrong password");

    assert!(matches!(res, Err(KsgenError::MacMismatchError)));
}

#[test]
fn test_keystore_tampered_mac_rejected() {
    let secret_key = vec![1u8; 32];
    let password = b"pw";

    let mut keystore = KeystoreInternal::from_secret_key(secret_key, password).unwrap();
    keystore.mac[0] = keystore.mac[0].wrapping_add(1);
    let res = keystore.decrypt(password);

    assert!(matches!(res, Err(KsgenError::MacMismatchError)));
}

#[test]
fn test_keystore_nonstandard_params_rejected() {
    let secret_key = vec![2u8; 32];
    let password = b"pw";

    let mut keystore = KeystoreInternal::from_secret_key(secret_key, password).unwrap();
    keystore.kdfparams.n = 14;
    let res = keystore.decrypt(password);

    assert!(matches!(res, Err(KsgenError::KdfConfigurationError)));
}

#[test]
fn test_kdf_parameters_reported() {
    let keystore = KeystoreInternal::from_secret_key(vec![3u8; 32], b"any password").unwrap();

    assert_eq!(keystore.kdfparams.dklen, 32);
    assert_eq!(keystore.kdfparams.n, 13);
    assert_eq!(keystore.kdfparams.cost_factor(), 8192);
    assert_eq!(keystore.kdfparams.r, 8);
    assert_eq!(keystore.kdfparams.p, 8);
    assert_eq!(keystore.cipher, "aes-128-ctr");
    assert_eq!(keystore.kdf, "scrypt");
}

#[test]
fn test_keystore_field_lengths() {
    let keystore = KeystoreInternal::from_secret_key(vec![4u8; 32], b"pw").unwrap();

    assert_eq!(keystore.ciphertext_hex_encoded().unwrap().len(), 64);
    assert_eq!(keystore.mac_hex_encoded().unwrap().len(), 64);
    assert_eq!(keystore.cipherparams.iv_hex_encoded().unwrap().len(), 32);
    assert_eq!(keystore.kdfparams.salt_hex_encoded().unwrap().len(), 32);
    assert_eq!(keystore.cipher.len(), 11);
    assert_eq!(keystore.kdf.len(), 6);
}

#[test]
fn test_keystore_mac_recomputable() {
    let password = b"pw";
    let keystore = KeystoreInternal::from_secret_key(vec![5u8; 32], password).unwrap();

    let scrypt_params = scrypt::Params::new(13, 8, 8, 32).unwrap();
    let mut derived = [0u8; 32];
    scrypt::scrypt(password, &keystore.kdfparams.salt, &scrypt_params, &mut derived).unwrap();

    let mut mac_base = derived[16..32].to_vec();
    mac_base.extend_from_slice(&keystore.ciphertext);
    let recomputed = sha3::Keccak256::digest(&mac_base);

    assert_eq!(recomputed.as_slice(), keystore.mac.as_slice());
}
