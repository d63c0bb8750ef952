//! The vault-and-staking engine: one value that carries the singleton
//! configuration, the keyed stores (tickets, epochs, claim markers) and the
//! modeled slice of the token ledger the engine acts on — the custodial
//! vault balance and the per-user reference- and derivative-token balances.
//! Every operation is total: it either performs its exact documented state
//! change or rejects with a typed cause and changes nothing.

use vstd::prelude::*;
use crate::Address;
use crate::addrs_contain;
use crate::contains_address;
use crate::crypto::{
    freeze_authority_label, freeze_authority_seed, pda_of, try_find_pda, vault_authority_label,
    vault_authority_seed,
};
use crate::error::CustomErrorCode;
use crate::events::{DepositEvent, RedeemEvent, RewardsClaimed, UnbondEvent, UnbondingPeriodUpdated};
use crate::guard::{authority_ok, guard_error_of, validate_program_update_authority};
use crate::merkle::{compute_leaf, fold_path, leaf_hash, verify_merkle_proof, ProofNode};
use crate::state::{
    BalanceEntry, ClaimRecord, Config, RewardsEpoch, UnbondingTicket, MAX_ADMINISTRATORS,
    MAX_UNBONDING_PERIOD, MIN_UNBONDING_PERIOD,
};
use crate::store::{
    balance_of, claim_exists, distinct_claims, distinct_epoch_indexes, distinct_owners,
    distinct_ticket_owners, epoch_for, find_epoch, find_ticket_index, get_balance, has_claim,
    has_epoch, has_ticket_for, lemma_claim_push, lemma_epoch_push, lemma_ticket_push,
    lemma_ticket_remove, set_balance, ticket_for, ticket_index,
};

verus! {

/// The engine's whole state. The balances are the engine's view of the host
/// token ledger: the custodial vault account plus one account per user and
/// token. The two ghost counters record how many derivative tokens the
/// staking flow has minted and burned.
pub struct VaultEngine {
    pub program_id: Address,
    pub config: Option<Config>,
    pub tickets: Vec<UnbondingTicket>,
    pub epochs: Vec<RewardsEpoch>,
    pub claims: Vec<ClaimRecord>,
    pub vault_balance: u64,
    pub vault_account_owner: Address,
    pub reference_balances: Vec<BalanceEntry>,
    pub derivative_balances: Vec<BalanceEntry>,
    pub stake_minted: Ghost<nat>,
    pub stake_burned: Ghost<nat>,
}

impl VaultEngine {
    /// Whether the singleton configuration was created.
    pub open spec fn initialized(self) -> bool {
        self.config is Some
    }

    /// The configuration; meaningful only when initialized.
    pub open spec fn cfg(self) -> Config {
        self.config.unwrap()
    }

    /// The reference-token balance of `a`.
    pub open spec fn ref_balance(self, a: Seq<u8>) -> u64 {
        balance_of(self.reference_balances@, a)
    }

    /// The derivative-token balance of `a`.
    pub open spec fn stake_balance(self, a: Seq<u8>) -> u64 {
        balance_of(self.derivative_balances@, a)
    }

    /// The engine's invariant: a well-formed configuration once created,
    /// pairwise-distinct keys in every store, positive ticket amounts, and
    /// balance conservation — the vault holds exactly what the staking flow
    /// has minted and not yet burned back.
    pub open spec fn well_formed(self) -> bool {
        &&& (self.initialized() ==> self.cfg().well_formed())
        &&& distinct_ticket_owners(self.tickets@)
        &&& (forall|i: int|
            0 <= i < self.tickets@.len() ==> #[trigger] self.tickets@[i].requested_amount > 0)
        &&& distinct_epoch_indexes(self.epochs@)
        &&& distinct_claims(self.claims@)
        &&& distinct_owners(self.reference_balances@)
        &&& distinct_owners(self.derivative_balances@)
        &&& self.stake_burned@ <= self.stake_minted@
        &&& self.vault_balance as nat == self.stake_minted@ - self.stake_burned@
    }

    /// The modeled ledger slice is unchanged between two states.
    pub open spec fn same_ledger(pre: VaultEngine, post: VaultEngine) -> bool {
        &&& post.vault_balance == pre.vault_balance
        &&& post.vault_account_owner == pre.vault_account_owner
        &&& post.reference_balances@ == pre.reference_balances@
        &&& post.derivative_balances@ == pre.derivative_balances@
        &&& post.stake_minted@ == pre.stake_minted@
        &&& post.stake_burned@ == pre.stake_burned@
    }

    /// The keyed stores are unchanged between two states.
    pub open spec fn same_records(pre: VaultEngine, post: VaultEngine) -> bool {
        &&& post.tickets@ == pre.tickets@
        &&& post.epochs@ == pre.epochs@
        &&& post.claims@ == pre.claims@
    }

    /// A fresh engine for one program: no configuration, empty stores, an
    /// empty vault, and a custodial token account still owned by whoever
    /// set it up.
    pub fn new(program_id: Address, vault_account_owner: Address) -> (r: VaultEngine)
        ensures
            r.well_formed(),
            !r.initialized(),
            r.program_id == program_id,
            r.vault_account_owner == vault_account_owner,
            r.tickets@ == Seq::<UnbondingTicket>::empty(),
            r.epochs@ == Seq::<RewardsEpoch>::empty(),
            r.claims@ == Seq::<ClaimRecord>::empty(),
            r.vault_balance == 0,
            r.reference_balances@ == Seq::<BalanceEntry>::empty(),
            r.derivative_balances@ == Seq::<BalanceEntry>::empty(),
            r.stake_minted@ == 0,
            r.stake_burned@ == 0,
    {
        VaultEngine {
            program_id,
            config: None,
            tickets: Vec::new(),
            epochs: Vec::new(),
            claims: Vec::new(),
            vault_balance: 0,
            vault_account_owner,
            reference_balances: Vec::new(),
            derivative_balances: Vec::new(),
            stake_minted: Ghost(0nat),
            stake_burned: Ghost(0nat),
        }
    }

    /// The exact state change of a successful `initialize`.
    pub open spec fn initialize_ok(
        pre: VaultEngine,
        post: VaultEngine,
        metadata_address: Address,
        data: Seq<u8>,
        signer: Address,
        vault_mint: Address,
        stake_mint: Address,
        unbonding_period: i64,
        freeze_admins: Seq<Address>,
        rewards_admins: Seq<Address>,
        bump: u8,
    ) -> bool {
        &&& !pre.initialized()
        &&& authority_ok(pre.program_id@, metadata_address@, data, signer@)
        &&& freeze_admins.len() <= MAX_ADMINISTRATORS
        &&& rewards_admins.len() <= MAX_ADMINISTRATORS
        &&& MIN_UNBONDING_PERIOD <= unbonding_period <= MAX_UNBONDING_PERIOD
        &&& vault_mint@ != stake_mint@
        &&& post.initialized()
        &&& post.cfg().vault == vault_mint
        &&& post.cfg().mint == stake_mint
        &&& post.cfg().unbonding_period == unbonding_period
        &&& post.cfg().freeze_administrators@ == freeze_admins
        &&& post.cfg().rewards_administrators@ == rewards_admins
        &&& post.cfg().bump == bump
        &&& !post.cfg().paused
        &&& (pre.vault_account_owner@ == signer@ ==> pda_of(
            vault_authority_label(),
            pre.program_id@,
        ) is Some)
        &&& post.vault_account_owner@ == (if pre.vault_account_owner@ == signer@ {
            pda_of(vault_authority_label(), pre.program_id@).unwrap()
        } else {
            pre.vault_account_owner@
        })
        &&& post.program_id == pre.program_id
        &&& post.tickets@ == pre.tickets@
        &&& post.epochs@ == pre.epochs@
        &&& post.claims@ == pre.claims@
        &&& post.vault_balance == pre.vault_balance
        &&& post.reference_balances@ == pre.reference_balances@
        &&& post.derivative_balances@ == pre.derivative_balances@
        &&& post.stake_minted@ == pre.stake_minted@
        &&& post.stake_burned@ == pre.stake_burned@
    }

    /// The exact cause a failing `initialize` answers with.
    pub open spec fn initialize_err(
        pre: VaultEngine,
        metadata_address: Address,
        data: Seq<u8>,
        signer: Address,
        vault_mint: Address,
        stake_mint: Address,
        unbonding_period: i64,
        freeze_admins: Seq<Address>,
        rewards_admins: Seq<Address>,
        e: CustomErrorCode,
    ) -> bool {
        if pre.initialized() {
            e == CustomErrorCode::AlreadyInitialized
        } else if !authority_ok(pre.program_id@, metadata_address@, data, signer@) {
            e == guard_error_of(pre.program_id@, metadata_address@, data, signer@)
        } else if freeze_admins.len() > MAX_ADMINISTRATORS || rewards_admins.len()
            > MAX_ADMINISTRATORS {
            e == CustomErrorCode::TooManyAdministrators
        } else if !(MIN_UNBONDING_PERIOD <= unbonding_period <= MAX_UNBONDING_PERIOD) {
            e == CustomErrorCode::InvalidBondingPeriod
        } else if vault_mint@ == stake_mint@ {
            e == CustomErrorCode::VaultAndMintCannotBeSame
        } else if pre.vault_account_owner@ == signer@ && pda_of(
            vault_authority_label(),
            pre.program_id@,
        ) is None {
            e == CustomErrorCode::InvalidVaultAuthority
        } else {
            false
        }
    }

    /// Creates the singleton configuration. Root-gated: the metadata record
    /// and signer must pass the authority guard. When the custodial vault
    /// token account is still owned by the initializing signer, its
    /// ownership moves to the derived custodial authority, so that only the
    /// engine can later move funds out of it. Fails when the singleton
    /// already exists; never twice.
    pub fn initialize(
        &mut self,
        metadata_address: &Address,
        metadata_data: &Vec<u8>,
        signer: &Address,
        vault_mint: Address,
        stake_mint: Address,
        unbonding_period: i64,
        freeze_administrators: Vec<Address>,
        rewards_administrators: Vec<Address>,
        bump: u8,
    ) -> (r: Result<(), CustomErrorCode>)
        requires
            old(self).well_formed(),
        ensures
            final(self).well_formed(),
            match r {
                Ok(()) => Self::initialize_ok(
                    *old(self),
                    *final(self),
                    *metadata_address,
                    metadata_data@,
                    *signer,
                    vault_mint,
                    stake_mint,
                    unbonding_period,
                    freeze_administrators@,
                    rewards_administrators@,
                    bump,
                ),
                Err(e) => {
                    &&& *final(self) == *old(self)
                    &&& Self::initialize_err(
                        *old(self),
                        *metadata_address,
                        metadata_data@,
                        *signer,
                        vault_mint,
                        stake_mint,
                        unbonding_period,
                        freeze_administrators@,
                        rewards_administrators@,
                        e,
                    )
                },
            },
    {
        if self.config.is_some() {
            return Err(CustomErrorCode::AlreadyInitialized);
        }
        if let Err(e) = validate_program_update_authority(
            &self.program_id,
            metadata_address,
            metadata_data,
            signer,
        ) {
            return Err(e);
        }
        if freeze_administrators.len() > MAX_ADMINISTRATORS || rewards_administrators.len()
            > MAX_ADMINISTRATORS {
            return Err(CustomErrorCode::TooManyAdministrators);
        }
        if unbonding_period < MIN_UNBONDING_PERIOD || unbonding_period > MAX_UNBONDING_PERIOD {
            return Err(CustomErrorCode::InvalidBondingPeriod);
        }
        if vault_mint.addr_eq(&stake_mint) {
            return Err(CustomErrorCode::VaultAndMintCannotBeSame);
        }
        if self.vault_account_owner.addr_eq(signer) {
            let seed = vault_authority_seed();
            match try_find_pda(&seed, &self.program_id) {
                Some(vault_authority) => {
                    self.vault_account_owner = vault_authority;
                },
                None => {
                    return Err(CustomErrorCode::InvalidVaultAuthority);
                },
            }
        }
        self.config = Some(
            Config {
                vault: vault_mint,
                mint: stake_mint,
                unbonding_period,
                freeze_administrators,
                rewards_administrators,
                bump,
                paused: false,
            },
        );
        Ok(())
    }

    /// Sets or clears the pause flag. Root-gated; no other effect.
    pub fn pause(
        &mut self,
        metadata_address: &Address,
        metadata_data: &Vec<u8>,
        signer: &Address,
        pause: bool,
    ) -> (r: Result<(), CustomErrorCode>)
        requires
            old(self).well_formed(),
            old(self).initialized(),
        ensures
            final(self).well_formed(),
            match r {
                Ok(()) => {
                    &&& authority_ok(
                        old(self).program_id@,
                        metadata_address@,
                        metadata_data@,
                        signer@,
                    )
                    &&& final(self).initialized()
                    &&& final(self).cfg().paused == pause
                    &&& final(self).cfg().vault == old(self).cfg().vault
                    &&& final(self).cfg().mint == old(self).cfg().mint
                    &&& final(self).cfg().unbonding_period == old(self).cfg().unbonding_period
                    &&& final(self).cfg().freeze_administrators@ == old(
                        self,
                    ).cfg().freeze_administrators@
                    &&& final(self).cfg().rewards_administrators@ == old(
                        self,
                    ).cfg().rewards_administrators@
                    &&& final(self).cfg().bump == old(self).cfg().bump
                    &&& final(self).program_id == old(self).program_id
                    &&& Self::same_ledger(*old(self), *final(self))
                    &&& Self::same_records(*old(self), *final(self))
                },
                Err(e) => {
                    &&& *final(self) == *old(self)
                    &&& !authority_ok(
                        old(self).program_id@,
                        metadata_address@,
                        metadata_data@,
                        signer@,
                    )
                    &&& e == guard_error_of(
                        old(self).program_id@,
                        metadata_address@,
                        metadata_data@,
                        signer@,
                    )
                },
            },
    {
        if let Err(e) = validate_program_update_authority(
            &self.program_id,
            metadata_address,
            metadata_data,
            signer,
        ) {
            return Err(e);
        }
        match &mut self.config {
            Some(c) => {
                c.paused = pause;
            },
            None => {
                proof {
                    assert(false);
                }
            },
        }
        Ok(())
    }

    /// Replaces the unbonding period, range-checked, and reports the old and
    /// new value. Root-gated.
    pub fn update_config(
        &mut self,
        metadata_address: &Address,
        metadata_data: &Vec<u8>,
        signer: &Address,
        new_unbonding_period: i64,
    ) -> (r: Result<UnbondingPeriodUpdated, CustomErrorCode>)
        requires
            old(self).well_formed(),
            old(self).initialized(),
        ensures
            final(self).well_formed(),
            match r {
                Ok(ev) => {
                    &&& authority_ok(
                        old(self).program_id@,
                        metadata_address@,
                        metadata_data@,
                        signer@,
                    )
                    &&& MIN_UNBONDING_PERIOD <= new_unbonding_period <= MAX_UNBONDING_PERIOD
                    &&& final(self).initialized()
                    &&& final(self).cfg().unbonding_period == new_unbonding_period
                    &&& final(self).cfg().paused == old(self).cfg().paused
                    &&& final(self).cfg().vault == old(self).cfg().vault
                    &&& final(self).cfg().mint == old(self).cfg().mint
                    &&& final(self).cfg().freeze_administrators@ == old(
                        self,
                    ).cfg().freeze_administrators@
                    &&& final(self).cfg().rewards_administrators@ == old(
                        self,
                    ).cfg().rewards_administrators@
                    &&& final(self).cfg().bump == old(self).cfg().bump
                    &&& final(self).program_id == old(self).program_id
                    &&& Self::same_ledger(*old(self), *final(self))
                    &&& Self::same_records(*old(self), *final(self))
                    &&& ev == (UnbondingPeriodUpdated {
                        admin: *signer,
                        old_period: old(self).cfg().unbonding_period,
                        new_period: new_unbonding_period,
                        mint: old(self).cfg().mint,
                        vault: old(self).cfg().vault,
                    })
                },
                Err(e) => {
                    &&& *final(self) == *old(self)
                    &&& if !authority_ok(
                        old(self).program_id@,
                        metadata_address@,
                        metadata_data@,
                        signer@,
                    ) {
                        e == guard_error_of(
                            old(self).program_id@,
                            metadata_address@,
                            metadata_data@,
                            signer@,
                        )
                    } else if !(MIN_UNBONDING_PERIOD <= new_unbonding_period
                        <= MAX_UNBONDING_PERIOD) {
                        e == CustomErrorCode::InvalidBondingPeriod
                    } else {
                        false
                    }
                },
            },
    {
        if let Err(e) = validate_program_update_authority(
            &self.program_id,
            metadata_address,
            metadata_data,
            signer,
        ) {
            return Err(e);
        }
        if new_unbonding_period < MIN_UNBONDING_PERIOD || new_unbonding_period
            > MAX_UNBONDING_PERIOD {
            return Err(CustomErrorCode::InvalidBondingPeriod);
        }
        let old_period: i64;
        let mint: Address;
        let vault: Address;
        match &mut self.config {
            Some(c) => {
                old_period = c.unbonding_period;
                mint = c.mint;
                vault = c.vault;
                c.unbonding_period = new_unbonding_period;
            },
            None => {
                proof {
                    assert(false);
                }
                return Err(CustomErrorCode::AlreadyInitialized);
            },
        }
        Ok(
            UnbondingPeriodUpdated {
                admin: *signer,
                old_period,
                new_period: new_unbonding_period,
                mint,
                vault,
            },
        )
    }
    /// The exact state change of a successful `deposit`: `amount` reference
    /// tokens move from the user into the vault and `amount` derivative
    /// tokens are minted to the user.
    pub open spec fn deposit_ok(
        pre: VaultEngine,
        post: VaultEngine,
        user: Address,
        amount: u64,
    ) -> bool {
        &&& pre.initialized()
        &&& amount > 0
        &&& !pre.cfg().paused
        &&& pre.ref_balance(user@) >= amount
        &&& pre.vault_balance + amount <= u64::MAX
        &&& pre.stake_balance(user@) + amount <= u64::MAX
        &&& post.config == pre.config
        &&& post.program_id == pre.program_id
        &&& post.vault_account_owner == pre.vault_account_owner
        &&& Self::same_records(pre, post)
        &&& post.vault_balance == pre.vault_balance + amount
        &&& (forall|a: Seq<u8>|
            #[trigger] balance_of(post.reference_balances@, a) == if a == user@ {
                (pre.ref_balance(user@) - amount) as u64
            } else {
                balance_of(pre.reference_balances@, a)
            })
        &&& (forall|a: Seq<u8>|
            #[trigger] balance_of(post.derivative_balances@, a) == if a == user@ {
                (pre.stake_balance(user@) + amount) as u64
            } else {
                balance_of(pre.derivative_balances@, a)
            })
        &&& post.stake_minted@ == pre.stake_minted@ + amount
        &&& post.stake_burned@ == pre.stake_burned@
    }

    /// The exact cause a failing `deposit` answers with.
    pub open spec fn deposit_err(
        pre: VaultEngine,
        user: Address,
        amount: u64,
        e: CustomErrorCode,
    ) -> bool {
        if amount == 0 {
            e == CustomErrorCode::InvalidAmount
        } else if pre.cfg().paused {
            e == CustomErrorCode::ProtocolPaused
        } else if pre.ref_balance(user@) < amount {
            e == CustomErrorCode::InsufficientBalance
        } else {
            false
        }
    }

    /// Deposits `amount` reference tokens into the vault and mints the user
    /// the same amount of the derivative token, atomically: either both
    /// legs land or neither does.
    pub fn deposit(&mut self, signer: &Address, amount: u64) -> (r: Result<
        DepositEvent,
        CustomErrorCode,
    >)
        requires
            old(self).well_formed(),
            old(self).initialized(),
            old(self).vault_balance + amount <= u64::MAX,
            old(self).stake_balance(signer@) + amount <= u64::MAX,
        ensures
            final(self).well_formed(),
            final(self).initialized(),
            match r {
                Ok(ev) => {
                    &&& Self::deposit_ok(*old(self), *final(self), *signer, amount)
                    &&& ev == (DepositEvent {
                        user: *signer,
                        amount,
                        mint: old(self).cfg().mint,
                        vault: old(self).cfg().vault,
                    })
                },
                Err(e) => {
                    &&& *final(self) == *old(self)
                    &&& Self::deposit_err(*old(self), *signer, amount, e)
                },
            },
    {
        let cfg_paused: bool;
        let cfg_mint: Address;
        let cfg_vault: Address;
        match &self.config {
            Some(c) => {
                cfg_paused = c.paused;
                cfg_mint = c.mint;
                cfg_vault = c.vault;
            },
            None => {
                proof {
                    assert(false);
                }
                return Err(CustomErrorCode::AlreadyInitialized);
            },
        }
        if amount == 0 {
            return Err(CustomErrorCode::InvalidAmount);
        }
        if cfg_paused {
            return Err(CustomErrorCode::ProtocolPaused);
        }
        let user_ref = get_balance(&self.reference_balances, signer);
        if user_ref < amount {
            return Err(CustomErrorCode::InsufficientBalance);
        }
        let user_stake = get_balance(&self.derivative_balances, signer);
        set_balance(&mut self.reference_balances, signer, user_ref - amount);
        set_balance(&mut self.derivative_balances, signer, user_stake + amount);
        self.vault_balance = self.vault_balance + amount;
        self.stake_minted = Ghost(self.stake_minted@ + amount as nat);
        Ok(DepositEvent { user: *signer, amount, mint: cfg_mint, vault: cfg_vault })
    }

    /// The exact state change of a successful `unbond`: one fresh ticket for
    /// the user, recording the requested amount, the balance snapshot and
    /// the request time; nothing else moves.
    pub open spec fn unbond_ok(
        pre: VaultEngine,
        post: VaultEngine,
        user: Address,
        amount: u64,
        now: i64,
    ) -> bool {
        &&& pre.initialized()
        &&& !has_ticket_for(pre.tickets@, user@)
        &&& amount > 0
        &&& !pre.cfg().paused
        &&& amount <= pre.stake_balance(user@)
        &&& post.tickets@ == pre.tickets@.push(
            UnbondingTicket {
                owner: user,
                requested_amount: amount,
                start_balance: pre.stake_balance(user@),
                start_ts: now,
            },
        )
        &&& post.config == pre.config
        &&& post.program_id == pre.program_id
        &&& post.epochs@ == pre.epochs@
        &&& post.claims@ == pre.claims@
        &&& Self::same_ledger(pre, post)
    }

    /// The exact cause a failing `unbond` answers with. A live ticket
    /// rejects first, whatever the amount: the per-owner ticket record is
    /// created before anything else is looked at.
    pub open spec fn unbond_err(
        pre: VaultEngine,
        user: Address,
        amount: u64,
        e: CustomErrorCode,
    ) -> bool {
        if has_ticket_for(pre.tickets@, user@) {
            e == CustomErrorCode::UnbondingInProgress
        } else if amount == 0 {
            e == CustomErrorCode::InvalidAmount
        } else if pre.cfg().paused {
            e == CustomErrorCode::ProtocolPaused
        } else if amount > pre.stake_balance(user@) {
            e == CustomErrorCode::InsufficientUnbondingBalance
        } else {
            false
        }
    }

    /// Opens the user's unbonding ticket for `amount` derivative tokens,
    /// snapshotting the balance and starting the time lock. At most one
    /// ticket per owner can be live: a second request fails until `redeem`
    /// closes the first.
    pub fn unbond(&mut self, signer: &Address, amount: u64, now: i64) -> (r: Result<
        UnbondEvent,
        CustomErrorCode,
    >)
        requires
            old(self).well_formed(),
            old(self).initialized(),
        ensures
            final(self).well_formed(),
            final(self).initialized(),
            match r {
                Ok(ev) => {
                    &&& Self::unbond_ok(*old(self), *final(self), *signer, amount, now)
                    &&& ev == (UnbondEvent {
                        user: *signer,
                        amount,
                        mint: old(self).cfg().mint,
                        vault: old(self).cfg().vault,
                    })
                },
                Err(e) => {
                    &&& *final(self) == *old(self)
                    &&& Self::unbond_err(*old(self), *signer, amount, e)
                },
            },
    {
        let cfg_paused: bool;
        let cfg_mint: Address;
        let cfg_vault: Address;
        match &self.config {
            Some(c) => {
                cfg_paused = c.paused;
                cfg_mint = c.mint;
                cfg_vault = c.vault;
            },
            None => {
                proof {
                    assert(false);
                }
                return Err(CustomErrorCode::AlreadyInitialized);
            },
        }
        if find_ticket_index(&self.tickets, signer).is_some() {
            return Err(CustomErrorCode::UnbondingInProgress);
        }
        if amount == 0 {
            return Err(CustomErrorCode::InvalidAmount);
        }
        if cfg_paused {
            return Err(CustomErrorCode::ProtocolPaused);
        }
        let user_stake = get_balance(&self.derivative_balances, signer);
        if amount > user_stake {
            return Err(CustomErrorCode::InsufficientUnbondingBalance);
        }
        let ticket = UnbondingTicket {
            owner: *signer,
            requested_amount: amount,
            start_balance: user_stake,
            start_ts: now,
        };
        proof {
            lemma_ticket_push(self.tickets@, ticket);
        }
        self.tickets.push(ticket);
        Ok(UnbondEvent { user: *signer, amount, mint: cfg_mint, vault: cfg_vault })
    }

    /// The exact state change of a successful `redeem`: the redeemed amount
    /// is the requested amount clamped to the current derivative balance;
    /// that many derivative tokens are burned, that many reference tokens
    /// leave the vault for the user, and the ticket closes.
    pub open spec fn redeem_ok(
        pre: VaultEngine,
        post: VaultEngine,
        user: Address,
        now: i64,
        redeemed: u64,
    ) -> bool {
        &&& pre.initialized()
        &&& !pre.cfg().paused
        &&& has_ticket_for(pre.tickets@, user@)
        &&& now - ticket_for(pre.tickets@, user@).start_ts >= pre.cfg().unbonding_period
        &&& redeemed == (if ticket_for(pre.tickets@, user@).requested_amount <= pre.stake_balance(
            user@,
        ) {
            ticket_for(pre.tickets@, user@).requested_amount
        } else {
            pre.stake_balance(user@)
        })
        &&& redeemed > 0
        &&& pre.vault_balance >= redeemed
        &&& pre.ref_balance(user@) + redeemed <= u64::MAX
        &&& post.tickets@ == pre.tickets@.remove(ticket_index(pre.tickets@, user@))
        &&& post.config == pre.config
        &&& post.program_id == pre.program_id
        &&& post.vault_account_owner == pre.vault_account_owner
        &&& post.epochs@ == pre.epochs@
        &&& post.claims@ == pre.claims@
        &&& post.vault_balance == pre.vault_balance - redeemed
        &&& (forall|a: Seq<u8>|
            #[trigger] balance_of(post.reference_balances@, a) == if a == user@ {
                (pre.ref_balance(user@) + redeemed) as u64
            } else {
                balance_of(pre.reference_balances@, a)
            })
        &&& (forall|a: Seq<u8>|
            #[trigger] balance_of(post.derivative_balances@, a) == if a == user@ {
                (pre.stake_balance(user@) - redeemed) as u64
            } else {
                balance_of(pre.derivative_balances@, a)
            })
        &&& post.stake_minted@ == pre.stake_minted@
        &&& post.stake_burned@ == pre.stake_burned@ + redeemed
    }

    /// The exact cause a failing `redeem` answers with.
    pub open spec fn redeem_err(
        pre: VaultEngine,
        user: Address,
        now: i64,
        e: CustomErrorCode,
    ) -> bool {
        let clamped = if has_ticket_for(pre.tickets@, user@) && ticket_for(pre.tickets@, user@)
            .requested_amount <= pre.stake_balance(user@) {
            ticket_for(pre.tickets@, user@).requested_amount
        } else {
            pre.stake_balance(user@)
        };
        if pre.cfg().paused {
            e == CustomErrorCode::ProtocolPaused
        } else if !has_ticket_for(pre.tickets@, user@) {
            e == CustomErrorCode::InvalidTicketOwner
        } else if now - ticket_for(pre.tickets@, user@).start_ts < pre.cfg().unbonding_period {
            e == CustomErrorCode::UnbondingPeriodNotElapsed
        } else if clamped == 0 {
            e == CustomErrorCode::InsufficientUnbondingBalance
        } else if pre.vault_balance < clamped {
            e == CustomErrorCode::InsufficientVaultBalance
        } else {
            false
        }
    }

    /// Closes the caller's matured ticket: burns the clamped amount of
    /// derivative tokens and returns that many reference tokens from the
    /// vault. The clamp to the current balance guarantees the engine never
    /// burns more than the caller still holds.
    pub fn redeem(&mut self, signer: &Address, now: i64) -> (r: Result<
        RedeemEvent,
        CustomErrorCode,
    >)
        requires
            old(self).well_formed(),
            old(self).initialized(),
            old(self).ref_balance(signer@) + old(self).vault_balance <= u64::MAX,
        ensures
            final(self).well_formed(),
            final(self).initialized(),
            match r {
                Ok(ev) => {
                    &&& Self::redeem_ok(*old(self), *final(self), *signer, now, ev.amount)
                    &&& ev.user == *signer
                    &&& ev.mint == old(self).cfg().mint
                    &&& ev.vault == old(self).cfg().vault
                },
                Err(e) => {
                    &&& *final(self) == *old(self)
                    &&& Self::redeem_err(*old(self), *signer, now, e)
                },
            },
    {
        let cfg_paused: bool;
        let cfg_mint: Address;
        let cfg_vault: Address;
        let cfg_period: i64;
        match &self.config {
            Some(c) => {
                cfg_paused = c.paused;
                cfg_mint = c.mint;
                cfg_vault = c.vault;
                cfg_period = c.unbonding_period;
            },
            None => {
                proof {
                    assert(false);
                }
                return Err(CustomErrorCode::AlreadyInitialized);
            },
        }
        if cfg_paused {
            return Err(CustomErrorCode::ProtocolPaused);
        }
        let ticket_at: usize;
        match find_ticket_index(&self.tickets, signer) {
            Some(i) => {
                ticket_at = i;
            },
            None => {
                return Err(CustomErrorCode::InvalidTicketOwner);
            },
        }
        let ticket = self.tickets[ticket_at];
        if (now as i128) - (ticket.start_ts as i128) < (cfg_period as i128) {
            return Err(CustomErrorCode::UnbondingPeriodNotElapsed);
        }
        let user_stake = get_balance(&self.derivative_balances, signer);
        let redeemed = if ticket.requested_amount <= user_stake {
            ticket.requested_amount
        } else {
            user_stake
        };
        if redeemed == 0 {
            return Err(CustomErrorCode::InsufficientUnbondingBalance);
        }
        if self.vault_balance < redeemed {
            return Err(CustomErrorCode::InsufficientVaultBalance);
        }
        let ghost pre = *self;
        let user_ref = get_balance(&self.reference_balances, signer);
        set_balance(&mut self.derivative_balances, signer, user_stake - redeemed);
        set_balance(&mut self.reference_balances, signer, user_ref + redeemed);
        self.vault_balance = self.vault_balance - redeemed;
        self.stake_burned = Ghost(self.stake_burned@ + redeemed as nat);
        proof {
            lemma_ticket_remove(pre.tickets@, ticket_at as int);
        }
        self.tickets.remove(ticket_at);
        Ok(RedeemEvent { user: *signer, amount: redeemed, mint: cfg_mint, vault: cfg_vault })
    }

    /// The configuration with one administrator list replaced and every
    /// other field kept.
    pub open spec fn same_config_but_admins(
        pre: Config,
        post: Config,
        freeze_admins: Seq<Address>,
        rewards_admins: Seq<Address>,
    ) -> bool {
        &&& post.freeze_administrators@ == freeze_admins
        &&& post.rewards_administrators@ == rewards_admins
        &&& post.vault == pre.vault
        &&& post.mint == pre.mint
        &&& post.unbonding_period == pre.unbonding_period
        &&& post.bump == pre.bump
        &&& post.paused == pre.paused
    }

    /// Replaces the freeze-administrator list wholesale. Root-gated and
    /// size-checked; no merge semantics.
    pub fn update_freeze_administrators(
        &mut self,
        metadata_address: &Address,
        metadata_data: &Vec<u8>,
        signer: &Address,
        new_administrators: Vec<Address>,
    ) -> (r: Result<(), CustomErrorCode>)
        requires
            old(self).well_formed(),
            old(self).initialized(),
        ensures
            final(self).well_formed(),
            match r {
                Ok(()) => {
                    &&& authority_ok(
                        old(self).program_id@,
                        metadata_address@,
                        metadata_data@,
                        signer@,
                    )
                    &&& new_administrators@.len() <= MAX_ADMINISTRATORS
                    &&& final(self).initialized()
                    &&& Self::same_config_but_admins(
                        old(self).cfg(),
                        final(self).cfg(),
                        new_administrators@,
                        old(self).cfg().rewards_administrators@,
                    )
                    &&& final(self).program_id == old(self).program_id
                    &&& Self::same_ledger(*old(self), *final(self))
                    &&& Self::same_records(*old(self), *final(self))
                },
                Err(e) => {
                    &&& *final(self) == *old(self)
                    &&& if !authority_ok(
                        old(self).program_id@,
                        metadata_address@,
                        metadata_data@,
                        signer@,
                    ) {
                        e == guard_error_of(
                            old(self).program_id@,
                            metadata_address@,
                            metadata_data@,
                            signer@,
                        )
                    } else if new_administrators@.len() > MAX_ADMINISTRATORS {
                        e == CustomErrorCode::TooManyAdministrators
                    } else {
                        false
                    }
                },
            },
    {
        if let Err(e) = validate_program_update_authority(
            &self.program_id,
            metadata_address,
            metadata_data,
            signer,
        ) {
            return Err(e);
        }
        if new_administrators.len() > MAX_ADMINISTRATORS {
            return Err(CustomErrorCode::TooManyAdministrators);
        }
        match &mut self.config {
            Some(c) => {
                c.freeze_administrators = new_administrators;
            },
            None => {
                proof {
                    assert(false);
                }
            },
        }
        Ok(())
    }

    /// Replaces the reward-administrator list wholesale. Root-gated and
    /// size-checked; no merge semantics.
    pub fn update_rewards_administrators(
        &mut self,
        metadata_address: &Address,
        metadata_data: &Vec<u8>,
        signer: &Address,
        new_administrators: Vec<Address>,
    ) -> (r: Result<(), CustomErrorCode>)
        requires
            old(self).well_formed(),
            old(self).initialized(),
        ensures
            final(self).well_formed(),
            match r {
                Ok(()) => {
                    &&& authority_ok(
                        old(self).program_id@,
                        metadata_address@,
                        metadata_data@,
                        signer@,
                    )
                    &&& new_administrators@.len() <= MAX_ADMINISTRATORS
                    &&& final(self).initialized()
                    &&& Self::same_config_but_admins(
                        old(self).cfg(),
                        final(self).cfg(),
                        old(self).cfg().freeze_administrators@,
                        new_administrators@,
                    )
                    &&& final(self).program_id == old(self).program_id
                    &&& Self::same_ledger(*old(self), *final(self))
                    &&& Self::same_records(*old(self), *final(self))
                },
                Err(e) => {
                    &&& *final(self) == *old(self)
                    &&& if !authority_ok(
                        old(self).program_id@,
                        metadata_address@,
                        metadata_data@,
                        signer@,
                    ) {
                        e == guard_error_of(
                            old(self).program_id@,
                            metadata_address@,
                            metadata_data@,
                            signer@,
                        )
                    } else if new_administrators@.len() > MAX_ADMINISTRATORS {
                        e == CustomErrorCode::TooManyAdministrators
                    } else {
                        false
                    }
                },
            },
    {
        if let Err(e) = validate_program_update_authority(
            &self.program_id,
            metadata_address,
            metadata_data,
            signer,
        ) {
            return Err(e);
        }
        if new_administrators.len() > MAX_ADMINISTRATORS {
            return Err(CustomErrorCode::TooManyAdministrators);
        }
        match &mut self.config {
            Some(c) => {
                c.rewards_administrators = new_administrators;
            },
            None => {
                proof {
                    assert(false);
                }
            },
        }
        Ok(())
    }

    /// Whether a freeze or thaw by `signer` is admitted: the signer is a
    /// freeze administrator, and the target mint's freeze authority is the
    /// engine's derived freeze-authority address.
    pub open spec fn freeze_allowed(
        self,
        signer: Seq<u8>,
        mint_freeze_authority: Option<Address>,
    ) -> bool {
        &&& addrs_contain(self.cfg().freeze_administrators@, signer)
        &&& match mint_freeze_authority {
            Some(fa) => pda_of(freeze_authority_label(), self.program_id@) == Some(fa@),
            None => false,
        }
    }

    /// The exact cause a refused freeze or thaw answers with.
    pub open spec fn freeze_err(
        self,
        signer: Seq<u8>,
        mint_freeze_authority: Option<Address>,
        e: CustomErrorCode,
    ) -> bool {
        if !addrs_contain(self.cfg().freeze_administrators@, signer) {
            e == CustomErrorCode::UnauthorizedFreezeAdministrator
        } else {
            e == CustomErrorCode::InvalidFreezeAuthority
        }
    }

    /// Decides a freeze of an arbitrary holder's token account. The caller
    /// must be a freeze administrator and the target mint's freeze
    /// authority must be the engine's derived address; on `Ok` the host
    /// issues the ledger's freeze primitive signed by that address. Touches
    /// no engine state; independent of the pause flag.
    pub fn freeze_token_account(
        &self,
        signer: &Address,
        mint_freeze_authority: Option<Address>,
    ) -> (r: Result<(), CustomErrorCode>)
        requires
            self.well_formed(),
            self.initialized(),
        ensures
            match r {
                Ok(()) => self.freeze_allowed(signer@, mint_freeze_authority),
                Err(e) => {
                    &&& !self.freeze_allowed(signer@, mint_freeze_authority)
                    &&& self.freeze_err(signer@, mint_freeze_authority, e)
                },
            },
    {
        let is_admin: bool;
        match &self.config {
            Some(c) => {
                is_admin = contains_address(&c.freeze_administrators, signer);
            },
            None => {
                proof {
                    assert(false);
                }
                return Err(CustomErrorCode::UnauthorizedFreezeAdministrator);
            },
        }
        if !is_admin {
            return Err(CustomErrorCode::UnauthorizedFreezeAdministrator);
        }
        let seed = freeze_authority_seed();
        match (try_find_pda(&seed, &self.program_id), mint_freeze_authority) {
            (Some(derived), Some(fa)) => {
                if derived.addr_eq(&fa) {
                    Ok(())
                } else {
                    Err(CustomErrorCode::InvalidFreezeAuthority)
                }
            },
            _ => Err(CustomErrorCode::InvalidFreezeAuthority),
        }
    }

    /// Decides a thaw of a frozen token account, under exactly the same
    /// gate as a freeze.
    pub fn thaw_token_account(
        &self,
        signer: &Address,
        mint_freeze_authority: Option<Address>,
    ) -> (r: Result<(), CustomErrorCode>)
        requires
            self.well_formed(),
            self.initialized(),
        ensures
            match r {
                Ok(()) => self.freeze_allowed(signer@, mint_freeze_authority),
                Err(e) => {
                    &&& !self.freeze_allowed(signer@, mint_freeze_authority)
                    &&& self.freeze_err(signer@, mint_freeze_authority, e)
                },
            },
    {
        self.freeze_token_account(signer, mint_freeze_authority)
    }

    /// The exact state change of a successful `create_rewards_epoch`.
    pub open spec fn create_epoch_ok(
        pre: VaultEngine,
        post: VaultEngine,
        admin: Address,
        index: u64,
        merkle_root: [u8; 32],
        total: u64,
        now: i64,
    ) -> bool {
        &&& pre.initialized()
        &&& !has_epoch(pre.epochs@, index)
        &&& addrs_contain(pre.cfg().rewards_administrators@, admin@)
        &&& post.epochs@ == pre.epochs@.push(
            RewardsEpoch { index, merkle_root, total, created_ts: now },
        )
        &&& post.config == pre.config
        &&& post.program_id == pre.program_id
        &&& post.tickets@ == pre.tickets@
        &&& post.claims@ == pre.claims@
        &&& Self::same_ledger(pre, post)
    }

    /// Publishes one reward epoch: its index, the Merkle root of the batch
    /// and the batch total, stamped with the creation time. Only a reward
    /// administrator may publish; an index can be published once, ever.
    pub fn create_rewards_epoch(
        &mut self,
        admin: &Address,
        index: u64,
        merkle_root: [u8; 32],
        total: u64,
        now: i64,
    ) -> (r: Result<(), CustomErrorCode>)
        requires
            old(self).well_formed(),
            old(self).initialized(),
        ensures
            final(self).well_formed(),
            match r {
                Ok(()) => Self::create_epoch_ok(
                    *old(self),
                    *final(self),
                    *admin,
                    index,
                    merkle_root,
                    total,
                    now,
                ),
                Err(e) => {
                    &&& *final(self) == *old(self)
                    &&& if has_epoch(old(self).epochs@, index) {
                        e == CustomErrorCode::InvalidRewardsEpoch
                    } else if !addrs_contain(old(self).cfg().rewards_administrators@, admin@) {
                        e == CustomErrorCode::InvalidRewardsAdministrator
                    } else {
                        false
                    }
                },
            },
    {
        if find_epoch(&self.epochs, index).is_some() {
            return Err(CustomErrorCode::InvalidRewardsEpoch);
        }
        let is_admin: bool;
        match &self.config {
            Some(c) => {
                is_admin = contains_address(&c.rewards_administrators, admin);
            },
            None => {
                proof {
                    assert(false);
                }
                return Err(CustomErrorCode::InvalidRewardsAdministrator);
            },
        }
        if !is_admin {
            return Err(CustomErrorCode::InvalidRewardsAdministrator);
        }
        let epoch = RewardsEpoch { index, merkle_root, total, created_ts: now };
        proof {
            lemma_epoch_push(self.epochs@, epoch);
        }
        self.epochs.push(epoch);
        Ok(())
    }

    /// The exact state change of a successful `claim_rewards`: the claim
    /// marker for (epoch, claimant) appears and the claimant is minted the
    /// claimed amount of the derivative token. The vault and the staking
    /// counters are untouched — rewards are minted, not paid from the vault.
    pub open spec fn claim_ok(
        pre: VaultEngine,
        post: VaultEngine,
        user: Address,
        epoch_index: u64,
        amount: u64,
        proof_path: Seq<ProofNode>,
    ) -> bool {
        &&& pre.initialized()
        &&& has_epoch(pre.epochs@, epoch_index)
        &&& !has_claim(pre.claims@, epoch_index, user@)
        &&& !pre.cfg().paused
        &&& amount > 0
        &&& fold_path(leaf_hash(user@, amount, epoch_index), proof_path) == epoch_for(
            pre.epochs@,
            epoch_index,
        ).merkle_root@
        &&& pre.stake_balance(user@) + amount <= u64::MAX
        &&& post.claims@ == pre.claims@.push(ClaimRecord { epoch_index, claimant: user })
        &&& post.config == pre.config
        &&& post.program_id == pre.program_id
        &&& post.tickets@ == pre.tickets@
        &&& post.epochs@ == pre.epochs@
        &&& post.vault_balance == pre.vault_balance
        &&& post.vault_account_owner == pre.vault_account_owner
        &&& post.reference_balances@ == pre.reference_balances@
        &&& (forall|a: Seq<u8>|
            #[trigger] balance_of(post.derivative_balances@, a) == if a == user@ {
                (pre.stake_balance(user@) + amount) as u64
            } else {
                balance_of(pre.derivative_balances@, a)
            })
        &&& post.stake_minted@ == pre.stake_minted@
        &&& post.stake_burned@ == pre.stake_burned@
    }

    /// The exact cause a failing `claim_rewards` answers with. The
    /// double-claim marker rejects before anything else is looked at: its
    /// create-if-absent record is the sole anti-replay defense.
    pub open spec fn claim_err(
        pre: VaultEngine,
        user: Address,
        epoch_index: u64,
        amount: u64,
        proof_path: Seq<ProofNode>,
        e: CustomErrorCode,
    ) -> bool {
        if !has_epoch(pre.epochs@, epoch_index) {
            e == CustomErrorCode::InvalidRewardsEpoch
        } else if has_claim(pre.claims@, epoch_index, user@) {
            e == CustomErrorCode::RewardsAlreadyClaimed
        } else if pre.cfg().paused {
            e == CustomErrorCode::ProtocolPaused
        } else if amount == 0 {
            e == CustomErrorCode::InvalidAmount
        } else if fold_path(leaf_hash(user@, amount, epoch_index), proof_path) != epoch_for(
            pre.epochs@,
            epoch_index,
        ).merkle_root@ {
            e == CustomErrorCode::InvalidMerkleProof
        } else {
            false
        }
    }

    /// Claims the caller's reward for one epoch. The leaf is the digest of
    /// the claimant's identity, the amount and the epoch index; the
    /// supplied sibling path must fold from that leaf exactly to the
    /// epoch's published root. On success the claim marker is created — a
    /// second claim for the same pair fails — and the amount is minted to
    /// the claimant.
    pub fn claim_rewards(
        &mut self,
        user: &Address,
        epoch_index: u64,
        amount: u64,
        proof_nodes: &Vec<ProofNode>,
    ) -> (r: Result<RewardsClaimed, CustomErrorCode>)
        requires
            old(self).well_formed(),
            old(self).initialized(),
            old(self).stake_balance(user@) + amount <= u64::MAX,
        ensures
            final(self).well_formed(),
            final(self).initialized(),
            match r {
                Ok(ev) => {
                    &&& Self::claim_ok(
                        *old(self),
                        *final(self),
                        *user,
                        epoch_index,
                        amount,
                        proof_nodes@,
                    )
                    &&& ev == (RewardsClaimed {
                        user: *user,
                        epoch: epoch_index,
                        amount,
                        mint: old(self).cfg().mint,
                        vault: old(self).cfg().vault,
                    })
                },
                Err(e) => {
                    &&& *final(self) == *old(self)
                    &&& Self::claim_err(*old(self), *user, epoch_index, amount, proof_nodes@, e)
                },
            },
    {
        let cfg_paused: bool;
        let cfg_mint: Address;
        let cfg_vault: Address;
        match &self.config {
            Some(c) => {
                cfg_paused = c.paused;
                cfg_mint = c.mint;
                cfg_vault = c.vault;
            },
            None => {
                proof {
                    assert(false);
                }
                return Err(CustomErrorCode::AlreadyInitialized);
            },
        }
        let epoch_at: usize;
        match find_epoch(&self.epochs, epoch_index) {
            Some(i) => {
                epoch_at = i;
            },
            None => {
                return Err(CustomErrorCode::InvalidRewardsEpoch);
            },
        }
        if claim_exists(&self.claims, epoch_index, user) {
            return Err(CustomErrorCode::RewardsAlreadyClaimed);
        }
        if cfg_paused {
            return Err(CustomErrorCode::ProtocolPaused);
        }
        if amount == 0 {
            return Err(CustomErrorCode::InvalidAmount);
        }
        let leaf = compute_leaf(user, amount, epoch_index);
        let root = self.epochs[epoch_at].merkle_root;
        if !verify_merkle_proof(leaf, proof_nodes, &root) {
            return Err(CustomErrorCode::InvalidMerkleProof);
        }
        let record = ClaimRecord { epoch_index, claimant: *user };
        proof {
            lemma_claim_push(self.claims@, record);
        }
        self.claims.push(record);
        let user_stake = get_balance(&self.derivative_balances, user);
        set_balance(&mut self.derivative_balances, user, user_stake + amount);
        Ok(
            RewardsClaimed {
                user: *user,
                epoch: epoch_index,
                amount,
                mint: cfg_mint,
                vault: cfg_vault,
            },
        )
    }
}

} // verus!
