//! The claim service: it consumes a nonce under a derived authority, checks
//! that the claim's signature was verified in the same bundle, and mints.

pub mod claim_ft;
pub mod close_airdrop;
pub mod constants;
pub mod errors;
pub mod initialize_airdrop;
pub mod laws;
pub mod signature_check;
pub mod transfer_mint_authority;

pub use claim_ft::{claim_ft, ClaimFtAccounts, ClaimFtParams};
pub use close_airdrop::{close_airdrop, CloseAirdropProjectAccounts};
pub use errors::AirdropErrors;
pub use initialize_airdrop::{
    initialize_airdrop, AirdropProject, InitializeAirdropProjectAccounts,
    InitializeAirdropProjectParams,
};
pub use signature_check::verify_sign_data_used_by_ed25519_program;
pub use transfer_mint_authority::{
    transfer_mint_authority, TransferMintAuthAccounts, TransferMintAuthParams,
};
