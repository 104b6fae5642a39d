//! Per-network address pipelines checked against independent
//! recomputations with the underlying crates.

use ksgen::chains::{aptos, bitcoin, ethereum, litecoin, solana, sui, tron};
use sha2::Digest as Sha2Digest;
use sha3::Digest as Sha3Digest;
use ripemd::Digest as RipemdDigest;
use blake2::Digest as Blake2Digest;

fn strip_padding(addr: &[u8]) -> &[u8] {
    match addr.iter().position(|b| *b == 0) {
        Some(i) => {
            assert!(addr[i..].iter().all(|b| *b == 0), "padding must be all zeros");
            &addr[..i]
        },
        None => addr,
    }
}

#[test]
fn test_aptos_address_exact() {
    let pk = [1u8; 32];
    let addr = aptos::derive_address(&pk);

    let mut preimage = pk.to_vec();
    preimage.push(0u8);
    let digest = sha3::Sha3_256::digest(&preimage);
    let expected = hex::encode(digest);

    assert_eq!(addr.len(), 64);
    assert_eq!(addr, expected.as_bytes());
}

#[test]
fn test_sui_address_exact() {
    let pk = [2u8; 32];
    let addr = sui::derive_address(&pk);

    let mut preimage = vec![0u8];
    preimage.extend_from_slice(&pk);
    let digest = blake2::Blake2b::<blake2::digest::consts::U32>::digest(&preimage);
    let expected = hex::encode(digest);

    assert_eq!(addr.len(), 64);
    assert_eq!(addr, expected.as_bytes());
}

#[test]
fn test_ethereum_zero_key_scenario() {
    let mut pk = [0u8; 65];
    pk[0] = 0x04;
    let addr = ethereum::derive_address(&pk);

    let digest = sha3::Keccak256::digest(&[0u8; 64]);
    let expected = hex::encode(&digest[12..32]);

    assert_eq!(addr.len(), 40);
    assert_eq!(addr, expected.as_bytes());
    assert!(addr.iter().all(|b| b.is_ascii_hexdigit() && !b.is_ascii_uppercase()));
}

#[test]
fn test_bitcoin_address_exact() {
    let mut pk = [2u8; 65];
    pk[0] = 0x04;
    let addr = bitcoin::derive_address(0x00, &pk).unwrap();
    let stripped = strip_padding(&addr);

    let h1 = sha2::Sha256::digest(&pk);
    let h2 = ripemd::Ripemd160::digest(h1);
    let mut payload = vec![0x00u8];
    payload.extend_from_slice(&h2);
    let chk = sha2::Sha256::digest(sha2::Sha256::digest(&payload));
    payload.extend_from_slice(&chk[..4]);
    let expected = bs58::encode(&payload).into_vec();

    assert_eq!(addr.len(), 34);
    assert_eq!(stripped, expected.as_slice());
}

#[test]
fn test_base58check_round_trip() {
    let mut pk = [3u8; 65];
    pk[0] = 0x04;
    let addr = bitcoin::derive_address(0x00, &pk).unwrap();
    let stripped = strip_padding(&addr);

    let decoded = bs58::decode(stripped).into_vec().unwrap();
    assert_eq!(decoded.len(), 25);
    let chk = sha2::Sha256::digest(sha2::Sha256::digest(&decoded[..21]));
    assert_eq!(&decoded[21..25], &chk[..4]);
}

#[test]
fn test_base58check_tamper_detected() {
    let mut pk = [4u8; 65];
    pk[0] = 0x04;
    let addr = bitcoin::derive_address(0x00, &pk).unwrap();
    let mut stripped = strip_padding(&addr).to_vec();

    // flip one character to another alphabet character
    stripped[5] = if stripped[5] == b'2' { b'3' } else { b'2' };
    match bs58::decode(&stripped).into_vec() {
        Ok(decoded) => {
            assert_eq!(decoded.len(), 25);
            let chk = sha2::Sha256::digest(sha2::Sha256::digest(&decoded[..21]));
            assert_ne!(&decoded[21..25], &chk[..4]);
        },
        Err(_) => {},
    }
}

#[test]
fn test_litecoin_version_byte() {
    let kp = litecoin::get_keypair().unwrap();
    let addr = kp.address_ref().unwrap();
    let decoded = bs58::decode(addr).into_vec().unwrap();

    assert_eq!(decoded.len(), 25);
    assert_eq!(decoded[0], 0x30);
    let chk = sha2::Sha256::digest(sha2::Sha256::digest(&decoded[..21]));
    assert_eq!(&decoded[21..25], &chk[..4]);
}

#[test]
fn test_solana_round_trip_scenario() {
    let pk = [5u8; 32];
    let addr = solana::derive_address(&pk).unwrap();
    let stripped = strip_padding(&addr);

    let decoded = bs58::decode(stripped).into_vec().unwrap();
    assert_eq!(addr.len(), 44);
    assert_eq!(decoded.as_slice(), &pk);
}

#[test]
fn test_tron_payload_scenario() {
    let mut pk = [7u8; 65];
    pk[0] = 0x04;
    let addr = tron::derive_address(&pk).unwrap();
    let stripped = strip_padding(&addr);

    let decoded = bs58::decode(stripped).into_vec().unwrap();
    let digest = sha3::Keccak256::digest(&pk[..]);

    assert_eq!(decoded.len(), 25);
    assert_eq!(decoded[0], 0x41);
    // payload bytes 1..21 are digest bytes 12..32, not digest bytes 0..20
    assert_eq!(&decoded[1..21], &digest[12..32]);
    assert_ne!(&decoded[1..21], &digest[0..20]);
}

#[test]
fn test_generated_addresses_fill_buffers() {
    let aptos_kp = aptos::get_keypair().unwrap();
    assert_eq!(aptos_kp.address_ref_fixed().unwrap().len(), 64);
    assert_eq!(aptos_kp.address_ref().unwrap().len(), 64);
    assert_eq!(aptos_kp.secret_key.len(), 32);

    let eth_kp = ethereum::get_keypair().unwrap();
    assert_eq!(eth_kp.address_ref_fixed().unwrap().len(), 40);
    assert_eq!(eth_kp.address_ref().unwrap().len(), 40);

    let sui_kp = sui::get_keypair().unwrap();
    assert_eq!(sui_kp.address_ref().unwrap().len(), 64);

    let btc_kp = bitcoin::get_keypair().unwrap();
    let btc_addr = btc_kp.address_ref_fixed().unwrap();
    assert_eq!(btc_addr.len(), 34);
    assert!(btc_kp.address_ref().unwrap().len() <= 34);
    assert!(!btc_kp.address_ref().unwrap().is_empty());

    let sol_kp = solana::get_keypair().unwrap();
    assert!(sol_kp.address_ref().unwrap().len() <= 44);

    let tron_kp = tron::get_keypair().unwrap();
    assert!(tron_kp.address_ref().unwrap().len() <= 34);
}
