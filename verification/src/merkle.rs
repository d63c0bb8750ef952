//! The reward-claim proof verifier. A claimant's entitlement is one leaf of a
//! Merkle tree whose root an administrator published; the claimant supplies
//! the sibling path, the verifier folds it back up and compares the result
//! against the published root.

use vstd::prelude::*;
use crate::Address;
use crate::crypto::{sha256, sha256_of};

verus! {

/// One Merkle proof element: a sibling hash and its orientation. An all-zero
/// sibling means "no sibling at this level" (the node is carried up alone).
#[derive(Clone, Copy, Debug)]
pub struct ProofNode {
    pub sibling: [u8; 32],
    pub is_left: bool,
}

/// Whether a hash is the all-zero placeholder for a missing sibling.
pub open spec fn is_zero_hash(h: Seq<u8>) -> bool {
    forall|i: int| 0 <= i < h.len() ==> h[i] == 0
}

/// The bytes a claim leaf is hashed over: claimant identity, then the amount
/// and the epoch index, each as 8 little-endian bytes.
pub open spec fn leaf_bytes(user: Seq<u8>, amount: u64, epoch_index: u64) -> Seq<u8> {
    user + vstd::bytes::spec_u64_to_le_bytes(amount) + vstd::bytes::spec_u64_to_le_bytes(
        epoch_index,
    )
}

/// The claim leaf itself: the digest of `leaf_bytes`.
pub open spec fn leaf_hash(user: Seq<u8>, amount: u64, epoch_index: u64) -> Seq<u8> {
    sha256_of(leaf_bytes(user, amount, epoch_index))
}

/// One folding step: a missing sibling hashes the node alone; otherwise the
/// pair is hashed with the sibling on the side its orientation flag names.
pub open spec fn fold_step(node: Seq<u8>, step: ProofNode) -> Seq<u8> {
    if is_zero_hash(step.sibling@) {
        sha256_of(node)
    } else if step.is_left {
        sha256_of(step.sibling@ + node)
    } else {
        sha256_of(node + step.sibling@)
    }
}

/// Folding a whole sibling path over a starting node, first step first.
pub open spec fn fold_path(node: Seq<u8>, steps: Seq<ProofNode>) -> Seq<u8>
    decreases steps.len(),
{
    if steps.len() == 0 {
        node
    } else {
        fold_path(fold_step(node, steps[0]), steps.drop_first())
    }
}

/// Folding a path extended by one step folds the path, then the step.
pub proof fn lemma_fold_path_snoc(node: Seq<u8>, steps: Seq<ProofNode>, step: ProofNode)
    ensures
        fold_path(node, steps.push(step)) == fold_step(fold_path(node, steps), step),
    decreases steps.len(),
{
    if steps.len() == 0 {
        assert(steps.push(step).drop_first() =~= Seq::<ProofNode>::empty());
        assert(steps.push(step)[0] == step);
        assert(fold_path(node, steps.push(step)) == fold_path(
            fold_step(node, step),
            Seq::<ProofNode>::empty(),
        ));
        assert(fold_path(node, steps) == node);
    } else {
        assert(steps.push(step).drop_first() =~= steps.drop_first().push(step));
        assert(steps.push(step)[0] == steps[0]);
        assert(fold_path(node, steps.push(step)) == fold_path(
            fold_step(node, steps[0]),
            steps.drop_first().push(step),
        ));
        lemma_fold_path_snoc(fold_step(node, steps[0]), steps.drop_first(), step);
        assert(fold_path(node, steps) == fold_path(fold_step(node, steps[0]), steps.drop_first()));
    }
}

/// Whether all 32 bytes of a sibling hash are zero.
fn is_zero32(b: &[u8; 32]) -> (r: bool)
    ensures
        r == is_zero_hash(b@),
{
    let mut i: usize = 0;
    while i < 32
        invariant
            0 <= i <= 32,
            forall|j: int| 0 <= j < i ==> b@[j] == 0,
        decreases 32 - i,
    {
        if b[i] != 0 {
            return false;
        }
        i += 1;
    }
    true
}

/// Compares a digest against a 32-byte hash.
fn digest_eq32(v: &Vec<u8>, b: &[u8; 32]) -> (r: bool)
    ensures
        r == (v@ == b@),
{
    if v.len() != 32 {
        return false;
    }
    let mut i: usize = 0;
    while i < 32
        invariant
            v@.len() == 32,
            0 <= i <= 32,
            forall|j: int| 0 <= j < i ==> v@[j] == b@[j],
        decreases 32 - i,
    {
        if v[i] != b[i] {
            return false;
        }
        i += 1;
    }
    proof {
        assert(v@ =~= b@);
    }
    true
}

/// One executable folding step over an owned digest.
fn fold_step_digest(node: Vec<u8>, step: &ProofNode) -> (r: Vec<u8>)
    ensures
        r@ == fold_step(node@, *step),
        r@.len() == 32,
{
    if is_zero32(&step.sibling) {
        sha256(&node)
    } else if step.is_left {
        let mut data = vstd::slice::slice_to_vec(step.sibling.as_slice());
        let mut tail = node;
        data.append(&mut tail);
        proof {
            assert(data@ =~= step.sibling@ + node@);
        }
        sha256(&data)
    } else {
        let mut data = node;
        let mut tail = vstd::slice::slice_to_vec(step.sibling.as_slice());
        data.append(&mut tail);
        sha256(&data)
    }
}

/// Folds a sibling path over a starting digest, first step first.
pub fn fold_merkle_path(leaf: Vec<u8>, proof: &Vec<ProofNode>) -> (r: Vec<u8>)
    ensures
        r@ == fold_path(leaf@, proof@),
{
    let ghost start = leaf@;
    let mut node = leaf;
    let mut i: usize = 0;
    while i < proof.len()
        invariant
            0 <= i <= proof@.len(),
            node@ == fold_path(start, proof@.take(i as int)),
        decreases proof@.len() - i,
    {
        proof {
            assert(proof@.take(i + 1) =~= proof@.take(i as int).push(proof@[i as int]));
            lemma_fold_path_snoc(start, proof@.take(i as int), proof@[i as int]);
        }
        node = fold_step_digest(node, &proof[i]);
        i += 1;
    }
    proof {
        assert(proof@.take(proof@.len() as int) =~= proof@);
    }
    node
}

/// Computes the claim leaf for one claimant, amount and epoch.
pub fn compute_leaf(user: &Address, amount: u64, epoch_index: u64) -> (r: Vec<u8>)
    ensures
        r@ == leaf_hash(user@, amount, epoch_index),
        r@.len() == 32,
{
    let mut data = vstd::slice::slice_to_vec(user.bytes.as_slice());
    let mut amount_bytes = vstd::bytes::u64_to_le_bytes(amount);
    data.append(&mut amount_bytes);
    let mut index_bytes = vstd::bytes::u64_to_le_bytes(epoch_index);
    data.append(&mut index_bytes);
    proof {
        assert(data@ =~= leaf_bytes(user@, amount, epoch_index));
    }
    sha256(&data)
}

/// Checks a sibling path: folding it over `leaf` must reproduce `root`
/// exactly. Nothing else about the path is accepted as evidence.
pub fn verify_merkle_proof(leaf: Vec<u8>, proof: &Vec<ProofNode>, root: &[u8; 32]) -> (r: bool)
    ensures
        r == (fold_path(leaf@, proof@) == root@),
{
    let folded = fold_merkle_path(leaf, proof);
    digest_eq32(&folded, root)
}

} // verus!
