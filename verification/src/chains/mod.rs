pub mod aptos;
pub mod bitcoin;
pub mod ethereum;
pub mod litecoin;
pub mod solana;
pub mod sui;
pub mod tron;
