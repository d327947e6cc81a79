//! What holds of the nonce ledger and the registry over several calls.

use crate::nonce_verify::errors::NonceVerifyErrors;
use crate::nonce_verify::init_user_business_nonce::consume_outcome;
use crate::nonce_verify::register_business_project::{
    register_business_project_outcome, BusinessProject, RegisterBusinessProjectAccounts,
    RegisterBusinessProjectParams,
};
use crate::nonce_verify::verify_business_nonce::{
    verify_business_nonce_constraint, verify_business_nonce_outcome, VerifyBusinessNonceAccounts,
    VerifyBusinessNonceParams,
};
use crate::runtime::fee_outcome;
use vstd::prelude::*;

verus! {

/// The counter after consuming `claims` one after the other from `start`,
/// `None` as soon as one of them fails.
pub open spec fn consume_all(start: u32, claims: Seq<u32>) -> Option<u32>
    decreases claims.len(),
{
    if claims.len() == 0 {
        Some(start)
    } else {
        match consume_outcome(start, claims[0]) {
            Ok(next) => consume_all(next, claims.skip(1)),
            Err(_) => None,
        }
    }
}

/// A claim of the current counter succeeds exactly once: it moves the
/// counter by one, and the same claim then fails with `NonceValueNotMatch`.
pub proof fn lemma_claim_succeeds_once(current: u32)
    requires
        current < u32::MAX,
    ensures
        consume_outcome(current, current) == Ok::<u32, NonceVerifyErrors>((current + 1) as u32),
        consume_outcome((current + 1) as u32, current) == Err::<u32, NonceVerifyErrors>(
            NonceVerifyErrors::NonceValueNotMatch,
        ),
{
}

/// Only the claim of the current counter is accepted, and no outcome lowers
/// the counter.
pub proof fn lemma_counter_never_decreases(current: u32, claim: u32)
    ensures
        consume_outcome(current, claim) is Ok ==> claim == current,
        consume_outcome(current, claim) matches Ok(next) ==> next == current + 1,
{
}

/// After N successful consumptions from a counter at `start` the counter
/// stands at `start + N`, and the claims were `start`, `start + 1`, .. in
/// this order. A fresh record starts at zero, so its counter is N.
pub proof fn lemma_counter_counts_consumptions(start: u32, claims: Seq<u32>)
    requires
        consume_all(start, claims) is Some,
    ensures
        consume_all(start, claims) == Some((start + claims.len()) as u32),
        start + claims.len() <= u32::MAX,
        forall|i: int| 0 <= i < claims.len() ==> claims[i] == start + i,
    decreases claims.len(),
{
    if claims.len() > 0 {
        let next = consume_outcome(start, claims[0])->Ok_0;
        let rest = claims.skip(1);
        lemma_counter_counts_consumptions(next, rest);
        assert forall|i: int| 0 <= i < claims.len() implies claims[i] == start + i by {
            if i > 0 {
                assert(rest[i - 1] == claims[i]);
            }
        }
    }
}

/// A consumption that succeeded is not accepted a second time: on the
/// accounts that it left, the same call fails, and where the fee can be
/// paid again it fails with `NonceValueNotMatch`.
pub proof fn lemma_replay_is_rejected(
    pre: VerifyBusinessNonceAccounts,
    params: VerifyBusinessNonceParams,
)
    requires
        verify_business_nonce_outcome(pre, params) is Ok,
    ensures
        ({
            let post = verify_business_nonce_outcome(pre, params)->Ok_0.0;
            &&& verify_business_nonce_outcome(post, params) is Err
            &&& fee_outcome(
                post.nonce_project.data.user_fee,
                post.user_fee_payer.lamports,
                post.nonce_vault_account.lamports,
            ) is Ok ==> verify_business_nonce_outcome(post, params) == Err::<
                (VerifyBusinessNonceAccounts, u32),
                NonceVerifyErrors,
            >(NonceVerifyErrors::NonceValueNotMatch)
        }),
{
    let post = verify_business_nonce_outcome(pre, params)->Ok_0.0;
    assert(verify_business_nonce_constraint(post) == verify_business_nonce_constraint(pre));
}

/// Success is owed: where the accounts are the right ones, the fee can be
/// paid and the claim is the current counter below the largest one, the
/// consumption succeeds, advances the counter by one and returns it.
pub proof fn lemma_valid_claim_succeeds(
    pre: VerifyBusinessNonceAccounts,
    params: VerifyBusinessNonceParams,
)
    requires
        verify_business_nonce_constraint(pre) is None,
        fee_outcome(
            pre.nonce_project.data.user_fee,
            pre.user_fee_payer.lamports,
            pre.nonce_vault_account.lamports,
        ) is Ok,
        params.nonce_value == pre.user_business_nonce.data.nonce_value,
        pre.user_business_nonce.data.nonce_value < u32::MAX,
    ensures
        verify_business_nonce_outcome(pre, params) matches Ok((post, next)) && next
            == pre.user_business_nonce.data.nonce_value + 1
            && post.user_business_nonce.data.nonce_value == next,
{
}

/// With a fee of zero a consumption moves no value: where the accounts are
/// the right ones and the claim is the current counter, it succeeds, leaves
/// every balance as it was, and advances the counter by one.
pub proof fn lemma_zero_fee_moves_nothing(
    pre: VerifyBusinessNonceAccounts,
    params: VerifyBusinessNonceParams,
)
    requires
        pre.nonce_project.data.user_fee == 0,
        verify_business_nonce_constraint(pre) is None,
        params.nonce_value == pre.user_business_nonce.data.nonce_value,
        pre.user_business_nonce.data.nonce_value < u32::MAX,
    ensures
        verify_business_nonce_outcome(pre, params) matches Ok((post, next)) && {
            &&& next == pre.user_business_nonce.data.nonce_value + 1
            &&& post.user_business_nonce.data.nonce_value == next
            &&& post.user_fee_payer == pre.user_fee_payer
            &&& post.nonce_vault_account == pre.nonce_vault_account
            &&& post.user_business_nonce.lamports == pre.user_business_nonce.lamports
        },
{
}

/// A business is registered once: on the accounts that a successful
/// registration left, a second registration of the same business fails and
/// leaves the stored authority as the first one set it. Where the fee can be
/// paid again the failure is `AlreadyExists`.
pub proof fn lemma_registration_is_not_repeated(
    pre: RegisterBusinessProjectAccounts,
    first: RegisterBusinessProjectParams,
    second: RegisterBusinessProjectParams,
)
    requires
        register_business_project_outcome(pre, first) is Ok,
        second.project_id == first.project_id,
    ensures
        ({
            let post = register_business_project_outcome(pre, first)->Ok_0;
            &&& post.business_project.data == Some(
                BusinessProject {
                    business_project_id: first.project_id,
                    business_project_authority: first.business_project_authority,
                    nonce_project: pre.nonce_project.key,
                },
            )
            &&& register_business_project_outcome(post, second) is Err
            &&& fee_outcome(
                post.nonce_project.data.business_fee,
                post.register_fee_payer.lamports,
                post.nonce_vault_account.lamports,
            ) is Ok ==> register_business_project_outcome(post, second) == Err::<
                RegisterBusinessProjectAccounts,
                NonceVerifyErrors,
            >(NonceVerifyErrors::AlreadyExists)
        }),
{
}

} // verus!
