//! Typed rejection causes. Every operation fails synchronously with one of
//! these, so callers can branch on the exact cause.

use vstd::prelude::*;

verus! {

/// Why a call was rejected. Each failure of the engine is one of these;
/// no operation fails with a catch-all.
#[derive(Clone, Copy, Debug, PartialEq, Eq, Structural)]
pub enum CustomErrorCode {
    InvalidAmount,
    InvalidTokenReceived,
    InvalidVault,
    InvalidAuthority,
    InsufficientBalance,
    UnbondingPeriodNotElapsed,
    InsufficientUnbondingBalance,
    UnbondingInProgress,
    InvalidMint,
    InvalidVaultMint,
    InvalidTicketOwner,
    InvalidMintAuthority,
    InsufficientVaultBalance,
    InvalidVaultAuthority,
    InvalidFreezeAuthority,
    InvalidProgramData,
    NoUpgradeAuthority,
    InvalidUpgradeAuthority,
    MissingSigner,
    TooManyAdministrators,
    UnauthorizedFreezeAdministrator,
    InvalidRewardsEpoch,
    InvalidMerkleProof,
    RewardsAlreadyClaimed,
    InvalidRewardsAdministrator,
    InvalidBondingPeriod,
    ProtocolPaused,
    VaultAndMintCannotBeSame,
    AlreadyInitialized,
}

} // verus!
