use hastra_sol_vault_stake::engine::VaultEngine;
use hastra_sol_vault_stake::error::CustomErrorCode;
use hastra_sol_vault_stake::store::{get_balance, set_balance};
use hastra_sol_vault_stake::Address;

fn addr(n: u8) -> Address {
    Address { bytes: [n; 32] }
}

/// A program-metadata record registering `authority`, at the derived
/// metadata address, as the host's upgradeable loader would store it.
fn root_metadata(program_id: &Address, authority: &Address) -> (Address, Vec<u8>) {
    let meta_addr = hastra_sol_vault_stake::crypto::get_program_data_address(program_id)
        .expect("program data address");
    let mut data = vec![3u8, 0, 0, 0];
    data.extend_from_slice(&42u64.to_le_bytes());
    data.push(1u8);
    data.extend_from_slice(&authority.bytes);
    (meta_addr, data)
}

const VAULT_MINT: u8 = 1;
const STAKE_MINT: u8 = 2;
const PROGRAM: u8 = 9;
const ROOT: u8 = 8;

fn engine_with_period(period: i64) -> VaultEngine {
    let pid = addr(PROGRAM);
    let authority = addr(ROOT);
    let mut e = VaultEngine::new(pid, addr(7));
    let (meta_addr, meta_data) = root_metadata(&pid, &authority);
    e.initialize(
        &meta_addr,
        &meta_data,
        &authority,
        addr(VAULT_MINT),
        addr(STAKE_MINT),
        period,
        vec![addr(ROOT)],
        vec![addr(ROOT)],
        255,
    )
    .expect("initialize");
    e
}

fn fund(e: &mut VaultEngine, user: &Address, amount: u64) {
    set_balance(&mut e.reference_balances, user, amount);
}

#[test]
fn deposit_moves_funds_and_mints() {
    let mut e = engine_with_period(100);
    let user = addr(20);
    fund(&mut e, &user, 500);
    let ev = e.deposit(&user, 120).expect("deposit");
    assert_eq!(ev.amount, 120);
    assert_eq!(ev.user.bytes, user.bytes);
    assert_eq!(ev.mint.bytes, addr(STAKE_MINT).bytes);
    assert_eq!(e.vault_balance, 120);
    assert_eq!(get_balance(&e.reference_balances, &user), 380);
    assert_eq!(get_balance(&e.derivative_balances, &user), 120);
}

#[test]
fn deposit_rejects_zero_amount() {
    let mut e = engine_with_period(100);
    let user = addr(20);
    fund(&mut e, &user, 500);
    assert_eq!(e.deposit(&user, 0).unwrap_err(), CustomErrorCode::InvalidAmount);
    assert_eq!(e.vault_balance, 0);
}

#[test]
fn deposit_rejects_insufficient_funds() {
    let mut e = engine_with_period(100);
    let user = addr(20);
    fund(&mut e, &user, 99);
    assert_eq!(e.deposit(&user, 100).unwrap_err(), CustomErrorCode::InsufficientBalance);
    assert_eq!(get_balance(&e.reference_balances, &user), 99);
}

#[test]
fn round_trip_returns_exactly_the_deposit() {
    let mut e = engine_with_period(100);
    let user = addr(20);
    fund(&mut e, &user, 1000);
    let stake_before = get_balance(&e.derivative_balances, &user);
    e.deposit(&user, 250).expect("deposit");
    e.unbond(&user, 250, 5_000).expect("unbond");
    let ev = e.redeem(&user, 5_100).expect("redeem");
    assert_eq!(ev.amount, 250);
    assert_eq!(get_balance(&e.reference_balances, &user), 1000);
    assert_eq!(get_balance(&e.derivative_balances, &user), stake_before);
    assert_eq!(e.vault_balance, 0);
}

#[test]
fn vault_balance_conserves_over_deposits_and_redeems() {
    let mut e = engine_with_period(1);
    let alice = addr(21);
    let bob = addr(22);
    fund(&mut e, &alice, 1000);
    fund(&mut e, &bob, 1000);
    e.deposit(&alice, 300).expect("deposit");
    e.deposit(&bob, 200).expect("deposit");
    assert_eq!(e.vault_balance, 500);
    e.unbond(&alice, 100, 10).expect("unbond");
    e.redeem(&alice, 20).expect("redeem");
    // minted 500, burned 100: the vault must hold exactly the difference.
    assert_eq!(e.vault_balance, 400);
    assert_eq!(get_balance(&e.derivative_balances, &alice), 200);
    assert_eq!(get_balance(&e.derivative_balances, &bob), 200);
}

#[test]
fn unbond_snapshots_balance_and_time() {
    let mut e = engine_with_period(100);
    let user = addr(20);
    fund(&mut e, &user, 500);
    e.deposit(&user, 400).expect("deposit");
    let ev = e.unbond(&user, 150, 77).expect("unbond");
    assert_eq!(ev.amount, 150);
    assert_eq!(e.tickets.len(), 1);
    assert_eq!(e.tickets[0].owner.bytes, user.bytes);
    assert_eq!(e.tickets[0].requested_amount, 150);
    assert_eq!(e.tickets[0].start_balance, 400);
    assert_eq!(e.tickets[0].start_ts, 77);
}

#[test]
fn unbond_rejects_more_than_balance() {
    let mut e = engine_with_period(100);
    let user = addr(20);
    fund(&mut e, &user, 500);
    e.deposit(&user, 100).expect("deposit");
    assert_eq!(
        e.unbond(&user, 101, 0).unwrap_err(),
        CustomErrorCode::InsufficientUnbondingBalance
    );
}

#[test]
fn second_unbond_fails_while_ticket_is_live() {
    let mut e = engine_with_period(100);
    let user = addr(20);
    fund(&mut e, &user, 500);
    e.deposit(&user, 400).expect("deposit");
    e.unbond(&user, 100, 0).expect("unbond");
    // A second request fails whatever the amount, even a zero one.
    assert_eq!(e.unbond(&user, 50, 1).unwrap_err(), CustomErrorCode::UnbondingInProgress);
    assert_eq!(e.unbond(&user, 0, 1).unwrap_err(), CustomErrorCode::UnbondingInProgress);
    assert_eq!(
        e.unbond(&user, 1_000_000, 1).unwrap_err(),
        CustomErrorCode::UnbondingInProgress
    );
    assert_eq!(e.tickets.len(), 1);
    // Another user is not affected.
    let other = addr(30);
    fund(&mut e, &other, 60);
    e.deposit(&other, 60).expect("deposit");
    e.unbond(&other, 10, 1).expect("unbond");
}

#[test]
fn redeem_respects_the_time_lock() {
    let mut e = engine_with_period(1000);
    let user = addr(20);
    fund(&mut e, &user, 500);
    e.deposit(&user, 200).expect("deposit");
    e.unbond(&user, 200, 10_000).expect("unbond");
    // Strictly before the period has elapsed: always the not-elapsed error.
    for now in [10_000, 10_001, 10_500, 10_999] {
        assert_eq!(
            e.redeem(&user, now).unwrap_err(),
            CustomErrorCode::UnbondingPeriodNotElapsed
        );
    }
    // Exactly at the boundary it succeeds.
    let ev = e.redeem(&user, 11_000).expect("redeem");
    assert_eq!(ev.amount, 200);
}

#[test]
fn redeem_without_ticket_rejects_as_wrong_owner() {
    let mut e = engine_with_period(100);
    let user = addr(20);
    fund(&mut e, &user, 500);
    e.deposit(&user, 200).expect("deposit");
    assert_eq!(e.redeem(&user, 10).unwrap_err(), CustomErrorCode::InvalidTicketOwner);
}

#[test]
fn redeem_clamps_to_the_current_derivative_balance() {
    let mut e = engine_with_period(10);
    let user = addr(20);
    fund(&mut e, &user, 500);
    e.deposit(&user, 300).expect("deposit");
    e.unbond(&user, 300, 0).expect("unbond");
    // The derivative balance shrank after the ticket was opened (modeling an
    // external transfer): the engine burns only what the caller still holds.
    set_balance(&mut e.derivative_balances, &user, 120);
    let ev = e.redeem(&user, 100).expect("redeem");
    assert_eq!(ev.amount, 120);
    assert_eq!(get_balance(&e.derivative_balances, &user), 0);
    assert_eq!(e.vault_balance, 180);
}

#[test]
fn redeem_rejects_when_nothing_is_left_to_burn() {
    let mut e = engine_with_period(10);
    let user = addr(20);
    fund(&mut e, &user, 500);
    e.deposit(&user, 300).expect("deposit");
    e.unbond(&user, 300, 0).expect("unbond");
    set_balance(&mut e.derivative_balances, &user, 0);
    assert_eq!(
        e.redeem(&user, 100).unwrap_err(),
        CustomErrorCode::InsufficientUnbondingBalance
    );
}

#[test]
fn redeem_rejects_when_the_vault_cannot_cover() {
    let mut e = engine_with_period(10);
    let user = addr(20);
    fund(&mut e, &user, 500);
    e.deposit(&user, 300).expect("deposit");
    e.unbond(&user, 300, 0).expect("unbond");
    // A vault drained below the owed amount (not reachable through the
    // engine's own operations) is still refused cleanly.
    e.vault_balance = 299;
    assert_eq!(
        e.redeem(&user, 100).unwrap_err(),
        CustomErrorCode::InsufficientVaultBalance
    );
}

#[test]
fn ticket_closes_on_redeem_and_allows_a_new_unbond() {
    let mut e = engine_with_period(10);
    let user = addr(20);
    fund(&mut e, &user, 500);
    e.deposit(&user, 300).expect("deposit");
    e.unbond(&user, 100, 0).expect("unbond");
    e.redeem(&user, 10).expect("redeem");
    assert_eq!(e.tickets.len(), 0);
    e.unbond(&user, 50, 20).expect("unbond again");
    assert_eq!(e.tickets.len(), 1);
    assert_eq!(e.tickets[0].requested_amount, 50);
}

#[test]
fn balances_of_other_users_never_move() {
    let mut e = engine_with_period(1);
    let alice = addr(21);
    let bob = addr(22);
    fund(&mut e, &alice, 100);
    fund(&mut e, &bob, 700);
    e.deposit(&alice, 100).expect("deposit");
    assert_eq!(get_balance(&e.reference_balances, &bob), 700);
    assert_eq!(get_balance(&e.derivative_balances, &bob), 0);
    e.unbond(&alice, 40, 0).expect("unbond");
    e.redeem(&alice, 1).expect("redeem");
    assert_eq!(get_balance(&e.reference_balances, &bob), 700);
    assert_eq!(get_balance(&e.derivative_balances, &bob), 0);
}
