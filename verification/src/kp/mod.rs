pub mod derived_kp;
pub mod ed25519_kp;
pub mod secp256k1_kp;
