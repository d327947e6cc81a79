//! What a successful claim proves, and that it cannot be repeated.

use crate::address::is_derived_from;
use crate::nonce_verify::verify_business_nonce::verify_business_nonce_constraint;
use crate::programs::{program, ED25519_PROGRAM_ID, SOLANA_AIRDROP_ID};
use crate::solana_airdrop::claim_ft::{
    bridge_accounts, business_authority_seeds, claim_ft_constraint, claim_ft_outcome,
    claim_payload, claim_token_account, mint_authority_seeds, verify_nonce_outcome,
    ClaimFtAccounts, ClaimFtParams,
};
use crate::solana_airdrop::signature_check::{
    lemma_accepts_exactly_canonical, signature_check_data,
};
use vstd::prelude::*;

verus! {

/// A claim that succeeds has passed all three checks, and has done exactly
/// one consumption and one mint:
/// the claimed nonce was the stored one and the stored one is now one more;
/// the instruction before the claim is a signature check by the ed25519
/// program whose data is the canonical encoding of the admin's key, the
/// claim's signature and the claim's payload;
/// the business is registered with the authority derived for project and
/// business, and the mint is under the authority derived for project and
/// mint;
/// supply and the user's balance grew by the amount.
pub proof fn lemma_claim_passed_every_check(pre: ClaimFtAccounts, params: ClaimFtParams)
    requires
        claim_ft_outcome(pre, params) is Ok,
    ensures
        ({
            let post = claim_ft_outcome(pre, params)->Ok_0;
            &&& params.nonce == pre.user_business_nonce.data.nonce_value
            &&& post.user_business_nonce.data.nonce_value == params.nonce + 1
            &&& pre.ix_sysvar.has_preceding()
            &&& pre.ix_sysvar.preceding().program_id == program(ED25519_PROGRAM_ID)
            &&& pre.ix_sysvar.preceding().data@ == signature_check_data(
                pre.airdrop_project.data.airdrop_project_admin@,
                params.signature@,
                claim_payload(pre, params),
            )
            &&& pre.business_project.data.business_project_authority
                == pre.business_project_authority.key
            &&& is_derived_from(
                pre.business_project_authority.key,
                business_authority_seeds(pre.airdrop_project.key, pre.business_project.key),
                program(SOLANA_AIRDROP_ID),
            )
            &&& pre.mint.data.mint_authority == Some(pre.mint_authority.key)
            &&& is_derived_from(
                pre.mint_authority.key,
                mint_authority_seeds(pre.airdrop_project.key, pre.mint.key),
                program(SOLANA_AIRDROP_ID),
            )
            &&& post.mint.data.supply == pre.mint.data.supply + params.amount
            &&& post.user_token_account.data matches Some(token) && token.amount
                == claim_token_account(pre).data.amount + params.amount && token.owner
                == pre.claim_user.key && token.mint == pre.mint.key
            &&& post.ix_sysvar == pre.ix_sysvar
        }),
{
    let consumed = verify_nonce_outcome(pre, params.nonce)->Ok_0;
    lemma_accepts_exactly_canonical(
        consumed.ix_sysvar,
        claim_payload(consumed, params),
        params.signature@,
        consumed.airdrop_project.data.airdrop_project_admin@,
    );
}

/// A claim that succeeded cannot be repeated: on the accounts that it left,
/// the same claim fails.
pub proof fn lemma_claim_is_not_repeated(pre: ClaimFtAccounts, params: ClaimFtParams)
    requires
        claim_ft_outcome(pre, params) is Ok,
    ensures
        claim_ft_outcome(claim_ft_outcome(pre, params)->Ok_0, params) is Err,
{
    let post = claim_ft_outcome(pre, params)->Ok_0;
    lemma_claim_passed_every_check(pre, params);
    assert(verify_business_nonce_constraint(bridge_accounts(post))
        == verify_business_nonce_constraint(bridge_accounts(pre)));
    if claim_ft_constraint(post) is None {
        assert(post.user_business_nonce.data.nonce_value != params.nonce);
    }
}

} // verus!
