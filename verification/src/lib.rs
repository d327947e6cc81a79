//! A replay-protected claim protocol: a per-user nonce ledger, a structural
//! validator for the signature check that accompanies a claim, and the
//! derived authorities that tie the issuing service to the ledger.

pub mod address;
pub mod direct_distribute_airdrop;
pub mod encoding;
pub mod nonce_verify;
pub mod payload;
pub mod programs;
pub mod runtime;
pub mod sign_checker;
pub mod solana_airdrop;
