//! The boundary face: buffer validation, fixed lengths, the network
//! dispatch, errors and the hex and Base58Check building blocks.

use ksgen::boundary::{generate_wallet, validate_len, Network};
use ksgen::bs58_check::bs58_check;
use ksgen::error::KsgenError;
use ksgen::hexcode::hex_encode;
use sha2::Digest;

#[test]
fn test_address_len_table() {
    assert_eq!(Network::Aptos.address_len(), 65);
    assert_eq!(Network::Bitcoin.address_len(), 35);
    assert_eq!(Network::Ethereum.address_len(), 41);
    assert_eq!(Network::Litecoin.address_len(), 35);
    assert_eq!(Network::Solana.address_len(), 45);
    assert_eq!(Network::Sui.address_len(), 65);
    assert_eq!(Network::Tron.address_len(), 35);
}

#[test]
fn test_validate_len_accepts_exact() {
    assert!(validate_len(35, 35, "address").is_ok());
}

#[test]
fn test_validate_len_rejects_mismatch() {
    let res = validate_len(35, 34, "address");
    match res {
        Err(KsgenError::BufferLengthMismatchError { input_len, output_len, field_name }) => {
            assert_eq!(input_len, 35);
            assert_eq!(output_len, 34);
            assert_eq!(field_name, "address");
        },
        other => panic!("expected a length mismatch, got {:?}", other),
    }
}

#[test]
fn test_missing_buffer_error() {
    let e = KsgenError::null_ptr("mac".to_string());
    assert!(matches!(e, KsgenError::MissingBufferError { .. }));
}

fn check_wallet(network: Network, hex_encoded: bool) {
    let password = b"STRONG_PASSWORD";
    let (address, keystore) = generate_wallet(network, password).unwrap();
    assert_eq!(address.len(), network.address_len() - 1);

    let content_len = address.iter().position(|b| *b == 0).unwrap_or(address.len());
    assert!(address[content_len..].iter().all(|b| *b == 0));
    if hex_encoded {
        assert_eq!(content_len, address.len());
    } else {
        assert!(content_len > 0);
    }

    let recovered = keystore.decrypt(password).unwrap();
    assert_eq!(recovered.len(), 32);
}

#[test]
fn test_generate_wallet_aptos() {
    check_wallet(Network::Aptos, true);
}

#[test]
fn test_generate_wallet_bitcoin() {
    check_wallet(Network::Bitcoin, false);
}

#[test]
fn test_generate_wallet_ethereum() {
    check_wallet(Network::Ethereum, true);
}

#[test]
fn test_generate_wallet_litecoin() {
    check_wallet(Network::Litecoin, false);
}

#[test]
fn test_generate_wallet_solana() {
    check_wallet(Network::Solana, false);
}

#[test]
fn test_generate_wallet_sui() {
    check_wallet(Network::Sui, true);
}

#[test]
fn test_generate_wallet_tron() {
    check_wallet(Network::Tron, false);
}

#[test]
fn test_hex_encode_exact() {
    assert_eq!(hex_encode(&[0xbe, 0xef]), b"beef");
    assert_eq!(hex_encode(&[]), b"");
    assert_eq!(hex_encode(&[0x00, 0x0a, 0xf0]), b"000af0");
}

#[test]
fn test_bs58_check_writes_checksum() {
    let mut input = vec![0x00, 1, 2, 3, 4, 5, 0, 0, 0, 0];
    let mut output = vec![0u8; 20];
    bs58_check(&mut input, &mut output).unwrap();

    let chk = sha2::Sha256::digest(sha2::Sha256::digest(&input[..6]));
    assert_eq!(&input[6..10], &chk[..4]);

    let n = output.iter().position(|b| *b == 0).unwrap_or(output.len());
    let decoded = bs58::decode(&output[..n]).into_vec().unwrap();
    assert_eq!(decoded, input);
}

#[test]
fn test_bs58_check_buffer_too_small() {
    let mut input = vec![9u8; 25];
    let mut output = vec![0u8; 2];
    let res = bs58_check(&mut input, &mut output);
    assert!(matches!(res, Err(KsgenError::EncodingError)));
}

#[test]
fn test_invalid_output_constructor() {
    let e = KsgenError::invalid_output(12, 11, "cipher".to_string());
    match e {
        KsgenError::BufferLengthMismatchError { input_len, output_len, field_name } => {
            assert_eq!((input_len, output_len, field_name.as_str()), (12, 11, "cipher"));
        },
        other => panic!("expected a length mismatch, got {:?}", other),
    }
}
