//! Domain tags of the addresses that the direct distribution service
//! derives.

use vstd::prelude::*;

verus! {

/// Tag of the address of the one manage project.
pub const DIRECT_DISTRIBUTE_AIRDROP_MANAGER_SEED: &'static str = "dda_manager";

/// Tag of the address of the account that collects the service's fees.
pub const DIRECT_DISTRIBUTE_AIRDROP_FEE_RECEIVER_SEED: &'static str = "dda_fee_receiver";

/// Tag of the authority under which the service mints.
pub const DIRECT_DISTRIBUTE_AIRDROP_MINT_AUTHORITY_SEED: &'static str = "dda_mint_authority";

} // verus!
