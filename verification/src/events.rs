//! Audit records returned by successful state transitions. The engine hands
//! them to the caller fire-and-forget style; it makes no delivery promise.

use vstd::prelude::*;
use crate::Address;

verus! {

/// Record of a successful deposit: `user` paid `amount` reference tokens
/// into the vault and was minted `amount` derivative tokens of `mint`.
#[derive(Clone, Copy, Debug)]
pub struct DepositEvent {
    pub user: Address,
    pub amount: u64,
    pub mint: Address,
    pub vault: Address,
}

/// Record of a successful unbonding request for `amount` derivative tokens.
#[derive(Clone, Copy, Debug)]
pub struct UnbondEvent {
    pub user: Address,
    pub amount: u64,
    pub mint: Address,
    pub vault: Address,
}

/// Record of a successful redemption: `amount` derivative tokens were burned
/// and `amount` reference tokens returned to `user`.
#[derive(Clone, Copy, Debug)]
pub struct RedeemEvent {
    pub user: Address,
    pub amount: u64,
    pub mint: Address,
    pub vault: Address,
}

/// Record of a successful reward claim for one epoch.
#[derive(Clone, Copy, Debug)]
pub struct RewardsClaimed {
    pub user: Address,
    pub epoch: u64,
    pub amount: u64,
    pub mint: Address,
    pub vault: Address,
}

/// Record of a change of the unbonding period, carrying both the replaced
/// and the new value.
#[derive(Clone, Copy, Debug)]
pub struct UnbondingPeriodUpdated {
    pub admin: Address,
    pub old_period: i64,
    pub new_period: i64,
    pub mint: Address,
    pub vault: Address,
}

} // verus!
