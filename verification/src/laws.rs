//! The engine's cross-operation guarantees, stated over the operations'
//! exact transition relations and proved once, for every state and input
//! those relations admit.

use vstd::prelude::*;
use crate::Address;
use crate::addrs_contain;
use crate::engine::VaultEngine;
use crate::error::CustomErrorCode;
use crate::merkle::ProofNode;
use crate::store::{
    balance_of, has_claim, has_epoch, has_ticket_for, lemma_ticket_index_unique, ticket_for,
};

verus! {

/// Balance conservation: in every well-formed state the vault holds exactly
/// the derivative tokens the staking flow has minted and not yet burned.
/// Every operation preserves well-formedness, so this holds at every
/// observation point of any run.
pub proof fn balance_conservation(e: VaultEngine)
    requires
        e.well_formed(),
    ensures
        e.vault_balance as int == e.stake_minted@ - e.stake_burned@,
{
}

/// A successful deposit preserves balance conservation: the vault and the
/// minted total grow by the same amount.
pub proof fn deposit_conserves(pre: VaultEngine, post: VaultEngine, user: Address, amount: u64)
    requires
        VaultEngine::deposit_ok(pre, post, user, amount),
        pre.vault_balance as int == pre.stake_minted@ - pre.stake_burned@,
    ensures
        post.vault_balance as int == post.stake_minted@ - post.stake_burned@,
{
}

/// A successful redeem preserves balance conservation: the vault and the
/// burned total move by the same amount.
pub proof fn redeem_conserves(
    pre: VaultEngine,
    post: VaultEngine,
    user: Address,
    now: i64,
    redeemed: u64,
)
    requires
        VaultEngine::redeem_ok(pre, post, user, now, redeemed),
        pre.vault_balance as int == pre.stake_minted@ - pre.stake_burned@,
    ensures
        post.vault_balance as int == post.stake_minted@ - post.stake_burned@,
{
}

/// Round trip: a deposit of `amount`, an unbonding request for the same
/// amount, and a redeem once the period has elapsed pay out exactly
/// `amount` reference tokens and leave the user's two balances and the
/// vault where they started.
pub proof fn round_trip(
    s0: VaultEngine,
    s1: VaultEngine,
    s2: VaultEngine,
    s3: VaultEngine,
    user: Address,
    amount: u64,
    t_unbond: i64,
    t_redeem: i64,
    redeemed: u64,
)
    requires
        s2.well_formed(),
        VaultEngine::deposit_ok(s0, s1, user, amount),
        VaultEngine::unbond_ok(s1, s2, user, amount, t_unbond),
        VaultEngine::redeem_ok(s2, s3, user, t_redeem, redeemed),
    ensures
        redeemed == amount,
        s3.ref_balance(user@) == s0.ref_balance(user@),
        s3.stake_balance(user@) == s0.stake_balance(user@),
        s3.vault_balance == s0.vault_balance,
{
    let ticket = ticket_for(s2.tickets@, user@);
    assert(s2.tickets@[s2.tickets@.len() - 1].owner@ == user@);
    lemma_ticket_index_unique(s2.tickets@, user@, s2.tickets@.len() - 1);
    assert(ticket.requested_amount == amount);
    assert(balance_of(s1.derivative_balances@, user@) == s0.stake_balance(user@) + amount);
    assert(s2.stake_balance(user@) == s1.stake_balance(user@));
    assert(redeemed == amount);
    assert(balance_of(s3.reference_balances@, user@) == s2.ref_balance(user@) + amount);
    assert(balance_of(s1.reference_balances@, user@) == s0.ref_balance(user@) - amount);
    assert(balance_of(s3.derivative_balances@, user@) == s2.stake_balance(user@) - amount);
}

/// Time lock, rejecting half: while the ticket's age is below the
/// unbonding period no redeem transition exists at all.
pub proof fn time_lock_rejects_early(
    pre: VaultEngine,
    post: VaultEngine,
    user: Address,
    now: i64,
    redeemed: u64,
)
    requires
        has_ticket_for(pre.tickets@, user@),
        now - ticket_for(pre.tickets@, user@).start_ts < pre.cfg().unbonding_period,
    ensures
        !VaultEngine::redeem_ok(pre, post, user, now, redeemed),
{
}

/// Time lock, cause half: while unpaused and under the period, the one
/// rejection a redeem can answer with is the not-elapsed cause.
pub proof fn time_lock_error_cause(pre: VaultEngine, user: Address, now: i64, e: CustomErrorCode)
    requires
        !pre.cfg().paused,
        has_ticket_for(pre.tickets@, user@),
        now - ticket_for(pre.tickets@, user@).start_ts < pre.cfg().unbonding_period,
        VaultEngine::redeem_err(pre, user, now, e),
    ensures
        e == CustomErrorCode::UnbondingPeriodNotElapsed,
{
}

/// Time lock, admitting half: once the period has elapsed, with the
/// protocol unpaused and both balances sufficient, no rejection cause is
/// left — a redeem cannot fail.
pub proof fn time_lock_admits_mature(pre: VaultEngine, user: Address, now: i64, e: CustomErrorCode)
    requires
        pre.well_formed(),
        !pre.cfg().paused,
        has_ticket_for(pre.tickets@, user@),
        now - ticket_for(pre.tickets@, user@).start_ts >= pre.cfg().unbonding_period,
        pre.stake_balance(user@) >= ticket_for(pre.tickets@, user@).requested_amount,
        pre.vault_balance >= ticket_for(pre.tickets@, user@).requested_amount,
    ensures
        !VaultEngine::redeem_err(pre, user, now, e),
{
    let i = crate::store::ticket_index(pre.tickets@, user@);
    assert(0 <= i < pre.tickets@.len() && pre.tickets@[i].owner@ == user@);
    assert(pre.tickets@[i].requested_amount > 0);
}

/// Single ticket: after a successful unbond, a second unbond by the same
/// owner admits no transition, whatever the amount or time, and the one
/// rejection cause is the in-progress cause.
pub proof fn single_ticket(
    s0: VaultEngine,
    s1: VaultEngine,
    s2: VaultEngine,
    user: Address,
    amount: u64,
    now: i64,
    amount2: u64,
    now2: i64,
)
    requires
        VaultEngine::unbond_ok(s0, s1, user, amount, now),
    ensures
        !VaultEngine::unbond_ok(s1, s2, user, amount2, now2),
        forall|e: CustomErrorCode|
            VaultEngine::unbond_err(s1, user, amount2, e) ==> e
                == CustomErrorCode::UnbondingInProgress,
{
    assert(s1.tickets@[s1.tickets@.len() - 1].owner@ == user@);
    assert(has_ticket_for(s1.tickets@, user@));
}

/// Double claim: after a successful claim for (epoch, claimant), a second
/// claim for the pair admits no transition, whatever amount or path is
/// presented, and the one rejection cause is the already-claimed cause.
pub proof fn double_claim(
    s0: VaultEngine,
    s1: VaultEngine,
    s2: VaultEngine,
    user: Address,
    epoch_index: u64,
    amount: u64,
    proof_path: Seq<ProofNode>,
    amount2: u64,
    proof_path2: Seq<ProofNode>,
)
    requires
        VaultEngine::claim_ok(s0, s1, user, epoch_index, amount, proof_path),
    ensures
        !VaultEngine::claim_ok(s1, s2, user, epoch_index, amount2, proof_path2),
        forall|e: CustomErrorCode|
            VaultEngine::claim_err(s1, user, epoch_index, amount2, proof_path2, e) ==> e
                == CustomErrorCode::RewardsAlreadyClaimed,
{
    let n = s1.claims@.len() - 1;
    assert(s1.claims@[n].epoch_index == epoch_index && s1.claims@[n].claimant@ == user@);
    assert(has_claim(s1.claims@, epoch_index, user@));
    assert forall|e: CustomErrorCode|
        VaultEngine::claim_err(s1, user, epoch_index, amount2, proof_path2, e) implies e
        == CustomErrorCode::RewardsAlreadyClaimed by {
        if !has_epoch(s1.epochs@, epoch_index) {
            assert(has_epoch(s0.epochs@, epoch_index));
        }
    }
}

/// Administrator gating, revocation half: whoever is off the current
/// freeze-administrator list — in particular anyone just removed by a list
/// replacement — is refused on the very next freeze or thaw.
pub proof fn admin_revocation(e: VaultEngine, x: Address, mint_freeze_authority: Option<Address>)
    requires
        e.initialized(),
        !addrs_contain(e.cfg().freeze_administrators@, x@),
    ensures
        !e.freeze_allowed(x@, mint_freeze_authority),
{
}

/// Pause gating: while the pause flag is set, no deposit, unbond, redeem
/// or claim transition exists.
pub proof fn pause_gating(
    pre: VaultEngine,
    post: VaultEngine,
    user: Address,
    amount: u64,
    now: i64,
    epoch_index: u64,
    proof_path: Seq<ProofNode>,
    redeemed: u64,
)
    requires
        pre.initialized(),
        pre.cfg().paused,
    ensures
        !VaultEngine::deposit_ok(pre, post, user, amount),
        !VaultEngine::unbond_ok(pre, post, user, amount, now),
        !VaultEngine::redeem_ok(pre, post, user, now, redeemed),
        !VaultEngine::claim_ok(pre, post, user, epoch_index, amount, proof_path),
{
}

/// Pause gating, availability half: whether a freeze or thaw is admitted
/// does not depend on the pause flag — two states agreeing on the program
/// identity and the freeze-administrator list admit the same calls.
pub proof fn freeze_unaffected_by_pause(
    a: VaultEngine,
    b: VaultEngine,
    signer: Address,
    mint_freeze_authority: Option<Address>,
)
    requires
        a.initialized(),
        b.initialized(),
        a.program_id == b.program_id,
        a.cfg().freeze_administrators@ == b.cfg().freeze_administrators@,
    ensures
        a.freeze_allowed(signer@, mint_freeze_authority) == b.freeze_allowed(
            signer@,
            mint_freeze_authority,
        ),
{
}

} // verus!
