//! The direct distribution service: an admin mints to a list of receivers
//! in one instruction, for a fee per receiver.

pub mod claim_fee;
pub mod constants;
pub mod dda_airdrop_ft;
pub mod errors;
pub mod init_dda_airdrop_project;
pub mod init_singleton_manage_project;
pub mod transfer_dda_mint_authority;
pub mod update_dda_airdrop_project;
pub mod update_singleton_manage_project;

pub use claim_fee::{claim_fee, ClaimFeeAccounts, ClaimFeeParams};
pub use dda_airdrop_ft::{dda_airdrop_ft, DdaAirdropFtAccounts, DdaAirdropFtParams};
pub use errors::DirectDistributeAirdropErrors;
pub use init_dda_airdrop_project::{
    init_dda_airdrop_project, DdaAirdropProject, InitDdaAirdropProjectAccounts,
};
pub use init_singleton_manage_project::{
    init_singleton_manage_project, InitSingletonManageProjectAccounts,
    InitSingletonManageProjectParams, SingletonManageProject,
};
pub use transfer_dda_mint_authority::{transfer_dda_mint_authority, TransferMintAuthAccounts};
pub use update_dda_airdrop_project::{
    update_dda_airdrop_project, UpdateDdaAirdropProjectAccounts, UpdateDdaAirdropProjectParams,
};
pub use update_singleton_manage_project::{
    update_manager_singleton_project, update_singleton_manage_project,
    UpdateSingletonManageProjectAccounts,
    UpdateSingletonManageProjectParams,
};
