//! Domain tags of the addresses that the claim service derives.

use vstd::prelude::*;

verus! {

/// Tag of the address of an airdrop project.
pub const AIRDROP_PROJECT_SEED: &'static str = "airdrop_project";

/// Tag of the authority under which the service mints.
pub const AIRDROP_MINT_AUTHORITY_SEED: &'static str = "airdrop_mint_authority";

/// Tag of the authority under which the service consumes nonces of a
/// business. A seed holds at most thirty-two bytes.
pub const AIRDROP_NONCE_VERIFY_BUSINESS_PROJECT_SEED: &'static str =
    "airdrop_nonce_business_project";

} // verus!
