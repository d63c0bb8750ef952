use hastra_sol_vault_stake::engine::VaultEngine;
use hastra_sol_vault_stake::error::CustomErrorCode;
use hastra_sol_vault_stake::merkle::{compute_leaf, fold_merkle_path, verify_merkle_proof, ProofNode};
use hastra_sol_vault_stake::store::get_balance;
use hastra_sol_vault_stake::Address;

fn addr(n: u8) -> Address {
    Address { bytes: [n; 32] }
}

fn root_metadata(program_id: &Address, authority: &Address) -> (Address, Vec<u8>) {
    let meta_addr = hastra_sol_vault_stake::crypto::get_program_data_address(program_id)
        .expect("program data address");
    let mut data = vec![3u8, 0, 0, 0];
    data.extend_from_slice(&42u64.to_le_bytes());
    data.push(1u8);
    data.extend_from_slice(&authority.bytes);
    (meta_addr, data)
}

const REWARD_ADMIN: u8 = 5;

fn engine() -> VaultEngine {
    let pid = addr(9);
    let authority = addr(8);
    let mut e = VaultEngine::new(pid, addr(7));
    let (meta_addr, meta_data) = root_metadata(&pid, &authority);
    e.initialize(
        &meta_addr,
        &meta_data,
        &authority,
        addr(1),
        addr(2),
        100,
        vec![addr(4)],
        vec![addr(REWARD_ADMIN)],
        255,
    )
    .expect("initialize");
    e
}

fn vec_to_root(v: &[u8]) -> [u8; 32] {
    let mut out = [0u8; 32];
    out.copy_from_slice(v);
    out
}

/// The scenario of the reward flow: epoch 7, claimant U, amount 1000, a
/// three-step sibling path whose folding reproduces the published root.
#[test]
fn claim_scenario_epoch_seven() {
    let mut e = engine();
    let user = addr(42);
    let proof = vec![
        ProofNode { sibling: [0xAA; 32], is_left: false },
        ProofNode { sibling: [0xBB; 32], is_left: true },
        ProofNode { sibling: [0xCC; 32], is_left: false },
    ];
    let leaf = compute_leaf(&user, 1000, 7);
    let root = vec_to_root(&fold_merkle_path(leaf, &proof));
    e.create_rewards_epoch(&addr(REWARD_ADMIN), 7, root, 1000, 500).expect("epoch");
    let ev = e.claim_rewards(&user, 7, 1000, &proof).expect("claim");
    assert_eq!(ev.amount, 1000);
    assert_eq!(ev.epoch, 7);
    assert_eq!(get_balance(&e.derivative_balances, &user), 1000);
    assert_eq!(e.claims.len(), 1);
    assert_eq!(e.claims[0].epoch_index, 7);
    assert_eq!(e.claims[0].claimant.bytes, user.bytes);
    // Replaying the identical call fails on the claim marker.
    assert_eq!(
        e.claim_rewards(&user, 7, 1000, &proof).unwrap_err(),
        CustomErrorCode::RewardsAlreadyClaimed
    );
    assert_eq!(get_balance(&e.derivative_balances, &user), 1000);
}

#[test]
fn proof_with_zero_sibling_folds_the_node_alone() {
    let mut e = engine();
    let user = addr(42);
    // An all-zero sibling marks a level without a partner in an unbalanced
    // tree; the verifier hashes the running node alone there.
    let proof = vec![
        ProofNode { sibling: [0u8; 32], is_left: false },
        ProofNode { sibling: [0x11; 32], is_left: true },
    ];
    let leaf = compute_leaf(&user, 5, 0);
    let root = vec_to_root(&fold_merkle_path(leaf, &proof));
    e.create_rewards_epoch(&addr(REWARD_ADMIN), 0, root, 5, 0).expect("epoch");
    e.claim_rewards(&user, 0, 5, &proof).expect("claim");
}

#[test]
fn empty_proof_accepts_the_leaf_as_root() {
    let mut e = engine();
    let user = addr(42);
    let proof: Vec<ProofNode> = Vec::new();
    let leaf = compute_leaf(&user, 11, 3);
    let root = vec_to_root(&leaf);
    e.create_rewards_epoch(&addr(REWARD_ADMIN), 3, root, 11, 0).expect("epoch");
    e.claim_rewards(&user, 3, 11, &proof).expect("claim");
}

#[test]
fn perturbed_proofs_are_rejected() {
    let mut e = engine();
    let user = addr(42);
    let proof = vec![
        ProofNode { sibling: [0xAA; 32], is_left: false },
        ProofNode { sibling: [0xBB; 32], is_left: true },
        ProofNode { sibling: [0xCC; 32], is_left: false },
    ];
    let leaf = compute_leaf(&user, 1000, 7);
    let root = vec_to_root(&fold_merkle_path(leaf, &proof));
    e.create_rewards_epoch(&addr(REWARD_ADMIN), 7, root, 1000, 0).expect("epoch");

    // One flipped sibling bit.
    let mut flipped = proof.clone();
    flipped[1].sibling[0] ^= 0x01;
    assert_eq!(
        e.claim_rewards(&user, 7, 1000, &flipped).unwrap_err(),
        CustomErrorCode::InvalidMerkleProof
    );

    // Reordered steps.
    let mut reordered = proof.clone();
    reordered.swap(0, 2);
    assert_eq!(
        e.claim_rewards(&user, 7, 1000, &reordered).unwrap_err(),
        CustomErrorCode::InvalidMerkleProof
    );

    // A truncated path.
    let truncated = vec![proof[0], proof[1]];
    assert_eq!(
        e.claim_rewards(&user, 7, 1000, &truncated).unwrap_err(),
        CustomErrorCode::InvalidMerkleProof
    );

    // A flipped orientation.
    let mut reoriented = proof.clone();
    reoriented[0].is_left = true;
    assert_eq!(
        e.claim_rewards(&user, 7, 1000, &reoriented).unwrap_err(),
        CustomErrorCode::InvalidMerkleProof
    );

    // A different amount makes a different leaf.
    assert_eq!(
        e.claim_rewards(&user, 7, 999, &proof).unwrap_err(),
        CustomErrorCode::InvalidMerkleProof
    );

    // A different claimant makes a different leaf.
    assert_eq!(
        e.claim_rewards(&addr(43), 7, 1000, &proof).unwrap_err(),
        CustomErrorCode::InvalidMerkleProof
    );

    // The untouched proof still goes through afterwards.
    e.claim_rewards(&user, 7, 1000, &proof).expect("claim");
}

#[test]
fn verify_merkle_proof_matches_manual_folding() {
    let user = addr(42);
    let step = ProofNode { sibling: [0x5A; 32], is_left: false };
    let leaf = compute_leaf(&user, 12, 1);
    let folded = fold_merkle_path(leaf.clone(), &vec![step]);

    // The digest equals SHA-256 of (node || sibling), computed independently.
    let mut concat = Vec::new();
    concat.extend_from_slice(&leaf);
    concat.extend_from_slice(&step.sibling);
    let expected = anchor_lang::solana_program::hash::hashv(&[&concat]).to_bytes();
    assert_eq!(folded, expected.to_vec());

    assert!(verify_merkle_proof(leaf.clone(), &vec![step], &expected));
    let mut wrong = expected;
    wrong[31] ^= 0x80;
    assert!(!verify_merkle_proof(leaf, &vec![step], &wrong));
}

#[test]
fn compute_leaf_is_the_digest_of_identity_amount_and_epoch() {
    let user = addr(42);
    // The leaf must be SHA-256(identity || le64(amount) || le64(epoch)),
    // computed here independently of the library.
    let mut data = Vec::new();
    data.extend_from_slice(&user.bytes);
    data.extend_from_slice(&1000u64.to_le_bytes());
    data.extend_from_slice(&7u64.to_le_bytes());
    let expected = anchor_lang::solana_program::hash::hashv(&[&data]).to_bytes();
    assert_eq!(compute_leaf(&user, 1000, 7), expected.to_vec());
}

#[test]
fn epoch_creation_is_gated_and_append_only() {
    let mut e = engine();
    let root = [0x77u8; 32];
    // Not a reward administrator.
    assert_eq!(
        e.create_rewards_epoch(&addr(6), 1, root, 10, 0).unwrap_err(),
        CustomErrorCode::InvalidRewardsAdministrator
    );
    e.create_rewards_epoch(&addr(REWARD_ADMIN), 1, root, 10, 123).expect("epoch");
    assert_eq!(e.epochs.len(), 1);
    assert_eq!(e.epochs[0].index, 1);
    assert_eq!(e.epochs[0].merkle_root, root);
    assert_eq!(e.epochs[0].total, 10);
    assert_eq!(e.epochs[0].created_ts, 123);
    // The same index can never be published twice.
    assert_eq!(
        e.create_rewards_epoch(&addr(REWARD_ADMIN), 1, [0x88u8; 32], 11, 124).unwrap_err(),
        CustomErrorCode::InvalidRewardsEpoch
    );
    assert_eq!(e.epochs.len(), 1);
}

#[test]
fn claim_against_missing_epoch_or_zero_amount_fails() {
    let mut e = engine();
    let user = addr(42);
    let proof: Vec<ProofNode> = Vec::new();
    assert_eq!(
        e.claim_rewards(&user, 99, 10, &proof).unwrap_err(),
        CustomErrorCode::InvalidRewardsEpoch
    );
    let leaf = compute_leaf(&user, 0, 2);
    let root = vec_to_root(&leaf);
    e.create_rewards_epoch(&addr(REWARD_ADMIN), 2, root, 0, 0).expect("epoch");
    assert_eq!(
        e.claim_rewards(&user, 2, 0, &proof).unwrap_err(),
        CustomErrorCode::InvalidAmount
    );
}

#[test]
fn claims_by_different_users_of_one_epoch_are_independent() {
    let mut e = engine();
    let alice = addr(42);
    let bob = addr(43);
    let proof: Vec<ProofNode> = Vec::new();
    let root_a = vec_to_root(&compute_leaf(&alice, 30, 4));
    let root_b = vec_to_root(&compute_leaf(&bob, 40, 5));
    e.create_rewards_epoch(&addr(REWARD_ADMIN), 4, root_a, 30, 0).expect("epoch");
    e.create_rewards_epoch(&addr(REWARD_ADMIN), 5, root_b, 40, 0).expect("epoch");
    e.claim_rewards(&alice, 4, 30, &proof).expect("claim");
    e.claim_rewards(&bob, 5, 40, &proof).expect("claim");
    assert_eq!(get_balance(&e.derivative_balances, &alice), 30);
    assert_eq!(get_balance(&e.derivative_balances, &bob), 40);
    // Alice's claim marker does not block Bob's pair, nor her other epochs.
    assert_eq!(
        e.claim_rewards(&alice, 4, 30, &proof).unwrap_err(),
        CustomErrorCode::RewardsAlreadyClaimed
    );
}
