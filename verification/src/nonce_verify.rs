//! The nonce service: a registry of business projects and, for each
//! business and user, a counter that every authorization consumes.

pub mod claim_nonce_fee;
pub mod close_user_business_noce;
pub mod constants;
pub mod errors;
pub mod init_user_business_nonce;
pub mod initialize_nonce_project;
pub mod initialize_project;
pub mod laws;
pub mod register_business_project;
pub mod verify_business_nonce;

pub use claim_nonce_fee::{claim_nonce_fee, ClaimNonceFeeAccounts, ClaimNonceFeeParams};
pub use close_user_business_noce::{close_user_business_noce, CloseUserBusinessNonceAccounts};
pub use errors::NonceVerifyErrors;
pub use init_user_business_nonce::{
    init_user_business_nonce, InitUserBusinessNonceAccounts, UserBusinessNonceState,
};
pub use initialize_nonce_project::{
    initialize_nonce_project, AdminGate, InitializeNonceProjectAccounts,
    InitializeNonceProjectParams, NonceProject,
};
pub use initialize_project::{
    initialize_project, InitializeProject, InitializeProjectParams, Project,
};
pub use register_business_project::{
    register_business_project, BusinessProject, RegisterBusinessProjectAccounts,
    RegisterBusinessProjectParams,
};
pub use verify_business_nonce::{
    verify_business_nonce, VerifyBusinessNonceAccounts, VerifyBusinessNonceParams,
};
