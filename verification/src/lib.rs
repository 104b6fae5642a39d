//! Wallet-generation core: per-network address derivation from a freshly
//! generated keypair, and password-protected keystore encryption of the
//! 32-byte secret key.

pub mod boundary;
pub mod bs58_check;
pub mod chains;
pub mod byteops;
pub mod error;
pub mod hashes;
pub mod hexcode;
pub mod keystore;
pub mod kp;
