//! Domain tags of the addresses that the nonce service derives.

use vstd::prelude::*;

verus! {

/// Tag of the address of a nonce project.
pub const NONCE_PROJECT_SEED: &'static str = "nonce_verify_project";

/// Tag of the address of the vault that collects a nonce project's fees.
pub const NONCE_VAULT_ACCOUNT_SEED: &'static str = "nonce_vault_account";

/// Tag of the address of a business project.
pub const BUSINESS_PROJECT_SEED: &'static str = "business_project";

/// Tag of the address of a user's nonce record.
pub const USER_BUSINESS_NONCE_SEED: &'static str = "user_business_nonce";

/// Tag of the address of a fee project.
pub const PROJECT_SEED: &'static str = "project";

} // verus!
