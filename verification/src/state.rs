//! The persisted records of the engine: the singleton configuration, the
//! per-owner unbonding ticket, the per-index reward epoch, the existence-only
//! claim marker, and one entry of a modeled token-balance ledger.

use vstd::prelude::*;
use crate::Address;

verus! {

/// Longest unbonding period accepted: 365 days in seconds.
pub const MAX_UNBONDING_PERIOD: i64 = 31536000;

/// Shortest unbonding period accepted: one second.
pub const MIN_UNBONDING_PERIOD: i64 = 1;

/// Largest size of either administrator list.
pub const MAX_ADMINISTRATORS: usize = 5;

/// The singleton vault configuration: the token pair, the unbonding
/// duration, the pause flag, the two administrator lists and the
/// address-derivation salt.
#[derive(Debug)]
pub struct Config {
    pub vault: Address,
    pub mint: Address,
    pub unbonding_period: i64,
    pub freeze_administrators: Vec<Address>,
    pub rewards_administrators: Vec<Address>,
    pub bump: u8,
    pub paused: bool,
}

impl Config {
    /// What creation establishes and every mutation preserves: distinct
    /// token pair, unbonding period in range, bounded administrator lists.
    pub open spec fn well_formed(self) -> bool {
        &&& self.vault@ != self.mint@
        &&& MIN_UNBONDING_PERIOD <= self.unbonding_period <= MAX_UNBONDING_PERIOD
        &&& self.freeze_administrators@.len() <= MAX_ADMINISTRATORS
        &&& self.rewards_administrators@.len() <= MAX_ADMINISTRATORS
    }
}

/// A time-locked withdrawal intent: one live ticket per owner at a time.
#[derive(Clone, Copy, Debug)]
pub struct UnbondingTicket {
    pub owner: Address,
    pub requested_amount: u64,
    pub start_balance: u64,
    pub start_ts: i64,
}

/// A published batch of reward entitlements: the Merkle root of the batch
/// and its total, keyed by the epoch index, append-only.
#[derive(Clone, Copy, Debug)]
pub struct RewardsEpoch {
    pub index: u64,
    pub merkle_root: [u8; 32],
    pub total: u64,
    pub created_ts: i64,
}

/// An anti-replay marker: its existence means the pair (epoch, claimant)
/// has already claimed.
#[derive(Clone, Copy, Debug)]
pub struct ClaimRecord {
    pub epoch_index: u64,
    pub claimant: Address,
}

/// One token account of the modeled ledger: its owner and its balance.
#[derive(Clone, Copy, Debug)]
pub struct BalanceEntry {
    pub owner: Address,
    pub amount: u64,
}

} // verus!
