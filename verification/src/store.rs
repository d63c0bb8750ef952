//! Keyed stores. The host's storage layer gives the engine create-if-absent
//! records keyed by owner, epoch index or (epoch, claimant); the engine
//! models each store as a list of records whose keys are pairwise distinct,
//! and insertion-fails-if-present is the mutual-exclusion primitive.

use vstd::prelude::*;
use vstd::pervasive::VecAdditionalExecFns;
use crate::Address;
use crate::state::{BalanceEntry, ClaimRecord, RewardsEpoch, UnbondingTicket};

verus! {

// ---------------------------------------------------------------------------
// Token balances, keyed by owner.
// ---------------------------------------------------------------------------
/// No two balance entries share an owner.
pub open spec fn distinct_owners(s: Seq<BalanceEntry>) -> bool {
    forall|i: int, j: int| 0 <= i < j < s.len() ==> s[i].owner@ != s[j].owner@
}

/// Whether some entry is keyed by `a`.
pub open spec fn has_owner(s: Seq<BalanceEntry>, a: Seq<u8>) -> bool {
    exists|i: int| 0 <= i < s.len() && s[i].owner@ == a
}

/// The index of the entry keyed by `a`; meaningful only under `has_owner`.
pub open spec fn owner_index(s: Seq<BalanceEntry>, a: Seq<u8>) -> int {
    choose|i: int| 0 <= i < s.len() && s[i].owner@ == a
}

/// The balance of `a`: the amount of its entry, or zero without one.
pub open spec fn balance_of(s: Seq<BalanceEntry>, a: Seq<u8>) -> u64 {
    if has_owner(s, a) {
        s[owner_index(s, a)].amount
    } else {
        0u64
    }
}

/// With distinct owners, an entry keyed by `a` sits at the one index that
/// `owner_index` denotes.
pub proof fn lemma_owner_index_unique(s: Seq<BalanceEntry>, a: Seq<u8>, i: int)
    requires
        distinct_owners(s),
        0 <= i < s.len(),
        s[i].owner@ == a,
    ensures
        has_owner(s, a),
        owner_index(s, a) == i,
        balance_of(s, a) == s[i].amount,
{
    assert(has_owner(s, a));
    let j = owner_index(s, a);
    assert(0 <= j < s.len() && s[j].owner@ == a);
    if i < j {
        assert(s[i].owner@ != s[j].owner@);
    } else if j < i {
        assert(s[j].owner@ != s[i].owner@);
    }
}

/// Overwriting the entry of one owner changes that owner's balance and no
/// other's.
pub proof fn lemma_balance_update(s: Seq<BalanceEntry>, i: int, e: BalanceEntry)
    requires
        distinct_owners(s),
        0 <= i < s.len(),
        s[i].owner@ == e.owner@,
    ensures
        distinct_owners(s.update(i, e)),
        forall|a: Seq<u8>|
            #[trigger] balance_of(s.update(i, e), a) == if a == e.owner@ {
                e.amount
            } else {
                balance_of(s, a)
            },
{
    let t = s.update(i, e);
    assert(forall|p: int| 0 <= p < t.len() ==> t[p].owner@ == s[p].owner@);
    assert forall|a: Seq<u8>|
        #[trigger] balance_of(t, a) == (if a == e.owner@ {
            e.amount
        } else {
            balance_of(s, a)
        }) by {
        if a == e.owner@ {
            lemma_owner_index_unique(t, a, i);
        } else {
            if has_owner(s, a) {
                let k = owner_index(s, a);
                assert(0 <= k < s.len() && s[k].owner@ == a);
                assert(k != i);
                lemma_owner_index_unique(s, a, k);
                lemma_owner_index_unique(t, a, k);
            } else {
                if has_owner(t, a) {
                    let k = owner_index(t, a);
                    assert(0 <= k < t.len() && t[k].owner@ == a);
                    assert(s[k].owner@ == a);
                }
            }
        }
    }
}

/// Appending an entry for a fresh owner gives that owner its amount and
/// leaves every other balance alone.
pub proof fn lemma_balance_push(s: Seq<BalanceEntry>, e: BalanceEntry)
    requires
        distinct_owners(s),
        !has_owner(s, e.owner@),
    ensures
        distinct_owners(s.push(e)),
        forall|a: Seq<u8>|
            #[trigger] balance_of(s.push(e), a) == if a == e.owner@ {
                e.amount
            } else {
                balance_of(s, a)
            },
{
    let t = s.push(e);
    assert forall|p: int, q: int| 0 <= p < q < t.len() implies t[p].owner@ != t[q].owner@ by {
        if q == s.len() {
            if t[p].owner@ == e.owner@ {
                assert(s[p].owner@ == e.owner@);
            }
        }
    }
    assert forall|a: Seq<u8>|
        #[trigger] balance_of(t, a) == (if a == e.owner@ {
            e.amount
        } else {
            balance_of(s, a)
        }) by {
        if a == e.owner@ {
            lemma_owner_index_unique(t, a, s.len() as int);
        } else {
            if has_owner(s, a) {
                let k = owner_index(s, a);
                assert(0 <= k < s.len() && s[k].owner@ == a);
                lemma_owner_index_unique(s, a, k);
                lemma_owner_index_unique(t, a, k);
            } else {
                if has_owner(t, a) {
                    let k = owner_index(t, a);
                    assert(0 <= k < t.len() && t[k].owner@ == a);
                    assert(k != s.len());
                    assert(s[k].owner@ == a);
                }
            }
        }
    }
}

/// Looks the balance of `owner` up.
pub fn get_balance(list: &Vec<BalanceEntry>, owner: &Address) -> (r: u64)
    requires
        distinct_owners(list@),
    ensures
        r == balance_of(list@, owner@),
{
    let mut i: usize = 0;
    while i < list.len()
        invariant
            distinct_owners(list@),
            0 <= i <= list@.len(),
            forall|j: int| 0 <= j < i ==> list@[j].owner@ != owner@,
        decreases list@.len() - i,
    {
        if list[i].owner.addr_eq(owner) {
            proof {
                lemma_owner_index_unique(list@, owner@, i as int);
            }
            return list[i].amount;
        }
        i += 1;
    }
    proof {
        if has_owner(list@, owner@) {
            let k = owner_index(list@, owner@);
            assert(0 <= k < list@.len() && list@[k].owner@ == owner@);
        }
    }
    0
}

/// Sets the balance of `owner`, adding its entry when absent.
pub fn set_balance(list: &mut Vec<BalanceEntry>, owner: &Address, amount: u64)
    requires
        distinct_owners(old(list)@),
    ensures
        distinct_owners(final(list)@),
        forall|a: Seq<u8>|
            #[trigger] balance_of(final(list)@, a) == if a == owner@ {
                amount
            } else {
                balance_of(old(list)@, a)
            },
{
    let n = list.len();
    let mut i: usize = 0;
    while i < n
        invariant
            list@ == old(list)@,
            n == list@.len(),
            distinct_owners(list@),
            0 <= i <= list@.len(),
            forall|j: int| 0 <= j < i ==> list@[j].owner@ != owner@,
        decreases list@.len() - i,
    {
        if list[i].owner.addr_eq(owner) {
            let entry = BalanceEntry { owner: *owner, amount };
            proof {
                lemma_balance_update(list@, i as int, entry);
            }
            list.set(i, entry);
            return ;
        }
        i += 1;
    }
    let entry = BalanceEntry { owner: *owner, amount };
    proof {
        if has_owner(list@, owner@) {
            let k = owner_index(list@, owner@);
            assert(0 <= k < list@.len() && list@[k].owner@ == owner@);
        }
        lemma_balance_push(list@, entry);
    }
    list.push(entry);
}

// ---------------------------------------------------------------------------
// Unbonding tickets, keyed by owner.
// ---------------------------------------------------------------------------
/// No two tickets share an owner.
pub open spec fn distinct_ticket_owners(s: Seq<UnbondingTicket>) -> bool {
    forall|i: int, j: int| 0 <= i < j < s.len() ==> s[i].owner@ != s[j].owner@
}

/// Whether `owner` holds a live ticket.
pub open spec fn has_ticket_for(s: Seq<UnbondingTicket>, owner: Seq<u8>) -> bool {
    exists|i: int| 0 <= i < s.len() && s[i].owner@ == owner
}

/// The index of `owner`'s ticket; meaningful only under `has_ticket_for`.
pub open spec fn ticket_index(s: Seq<UnbondingTicket>, owner: Seq<u8>) -> int {
    choose|i: int| 0 <= i < s.len() && s[i].owner@ == owner
}

/// The ticket of `owner`; meaningful only under `has_ticket_for`.
pub open spec fn ticket_for(s: Seq<UnbondingTicket>, owner: Seq<u8>) -> UnbondingTicket {
    s[ticket_index(s, owner)]
}

/// With distinct owners, a ticket of `owner` sits at the one index that
/// `ticket_index` denotes.
pub proof fn lemma_ticket_index_unique(s: Seq<UnbondingTicket>, owner: Seq<u8>, i: int)
    requires
        distinct_ticket_owners(s),
        0 <= i < s.len(),
        s[i].owner@ == owner,
    ensures
        has_ticket_for(s, owner),
        ticket_index(s, owner) == i,
        ticket_for(s, owner) == s[i],
{
    assert(has_ticket_for(s, owner));
    let j = ticket_index(s, owner);
    assert(0 <= j < s.len() && s[j].owner@ == owner);
    if i < j {
        assert(s[i].owner@ != s[j].owner@);
    } else if j < i {
        assert(s[j].owner@ != s[i].owner@);
    }
}

/// Appending a ticket for a fresh owner creates that owner's ticket and
/// leaves every other owner's alone.
pub proof fn lemma_ticket_push(s: Seq<UnbondingTicket>, t: UnbondingTicket)
    requires
        distinct_ticket_owners(s),
        !has_ticket_for(s, t.owner@),
    ensures
        distinct_ticket_owners(s.push(t)),
        has_ticket_for(s.push(t), t.owner@),
        ticket_for(s.push(t), t.owner@) == t,
        forall|o: Seq<u8>|
            o != t.owner@ ==> #[trigger] has_ticket_for(s.push(t), o) == has_ticket_for(s, o),
        forall|o: Seq<u8>|
            o != t.owner@ && has_ticket_for(s, o) ==> #[trigger] ticket_for(s.push(t), o)
                == ticket_for(s, o),
{
    let u = s.push(t);
    assert forall|p: int, q: int| 0 <= p < q < u.len() implies u[p].owner@ != u[q].owner@ by {
        if q == s.len() {
            if u[p].owner@ == t.owner@ {
                assert(s[p].owner@ == t.owner@);
            }
        }
    }
    lemma_ticket_index_unique(u, t.owner@, s.len() as int);
    assert forall|o: Seq<u8>| o != t.owner@ implies #[trigger] has_ticket_for(u, o)
        == has_ticket_for(s, o) by {
        if has_ticket_for(s, o) {
            let k = ticket_index(s, o);
            assert(0 <= k < s.len() && s[k].owner@ == o);
            assert(u[k].owner@ == o);
        }
        if has_ticket_for(u, o) {
            let k = choose|k: int| 0 <= k < u.len() && u[k].owner@ == o;
            assert(k != s.len());
            assert(s[k].owner@ == o);
        }
    }
    assert forall|o: Seq<u8>| o != t.owner@ && has_ticket_for(s, o) implies #[trigger] ticket_for(
        u,
        o,
    ) == ticket_for(s, o) by {
        let k = ticket_index(s, o);
        lemma_ticket_index_unique(s, o, k);
        assert(u[k].owner@ == o);
        lemma_ticket_index_unique(u, o, k);
    }
}

/// Removing the ticket at one index closes exactly that owner's ticket.
pub proof fn lemma_ticket_remove(s: Seq<UnbondingTicket>, i: int)
    requires
        distinct_ticket_owners(s),
        0 <= i < s.len(),
    ensures
        distinct_ticket_owners(s.remove(i)),
        !has_ticket_for(s.remove(i), s[i].owner@),
        forall|o: Seq<u8>|
            o != s[i].owner@ ==> #[trigger] has_ticket_for(s.remove(i), o) == has_ticket_for(s, o),
        forall|o: Seq<u8>|
            o != s[i].owner@ && has_ticket_for(s, o) ==> #[trigger] ticket_for(s.remove(i), o)
                == ticket_for(s, o),
{
    let u = s.remove(i);
    s.remove_ensures(i);
    assert forall|p: int, q: int| 0 <= p < q < u.len() implies u[p].owner@ != u[q].owner@ by {
        let p0: int = if p < i {
            p
        } else {
            p + 1
        };
        let q0: int = if q < i {
            q
        } else {
            q + 1
        };
        assert(u[p] == s[p0]);
        assert(u[q] == s[q0]);
    }
    if has_ticket_for(u, s[i].owner@) {
        let k = ticket_index(u, s[i].owner@);
        assert(0 <= k < u.len() && u[k].owner@ == s[i].owner@);
        let k0: int = if k < i {
            k
        } else {
            k + 1
        };
        assert(u[k] == s[k0]);
        assert(s[k0].owner@ == s[i].owner@ && k0 != i);
    }
    assert forall|o: Seq<u8>| o != s[i].owner@ implies #[trigger] has_ticket_for(u, o)
        == has_ticket_for(s, o) by {
        if has_ticket_for(s, o) {
            let k = ticket_index(s, o);
            assert(0 <= k < s.len() && s[k].owner@ == o);
            assert(k != i);
            if k < i {
                assert(u[k] == s[k]);
            } else {
                assert(u[k - 1] == s[k]);
            }
        }
        if has_ticket_for(u, o) {
            let k = choose|k: int| 0 <= k < u.len() && u[k].owner@ == o;
            let k0: int = if k < i {
                k
            } else {
                k + 1
            };
            assert(u[k] == s[k0]);
        }
    }
    assert forall|o: Seq<u8>| o != s[i].owner@ && has_ticket_for(s, o) implies #[trigger] ticket_for(
        u,
        o,
    ) == ticket_for(s, o) by {
        let k = ticket_index(s, o);
        lemma_ticket_index_unique(s, o, k);
        assert(k != i);
        if k < i {
            assert(u[k] == s[k]);
            lemma_ticket_index_unique(u, o, k);
        } else {
            assert(u[k - 1] == s[k]);
            lemma_ticket_index_unique(u, o, k - 1);
        }
    }
}

/// Finds the index of `owner`'s live ticket, if one exists.
pub fn find_ticket_index(list: &Vec<UnbondingTicket>, owner: &Address) -> (r: Option<usize>)
    requires
        distinct_ticket_owners(list@),
    ensures
        match r {
            Some(i) => {
                &&& i < list@.len()
                &&& list@[i as int].owner@ == owner@
                &&& has_ticket_for(list@, owner@)
                &&& ticket_index(list@, owner@) == i
                &&& ticket_for(list@, owner@) == list@[i as int]
            },
            None => !has_ticket_for(list@, owner@),
        },
{
    let mut i: usize = 0;
    while i < list.len()
        invariant
            distinct_ticket_owners(list@),
            0 <= i <= list@.len(),
            forall|j: int| 0 <= j < i ==> list@[j].owner@ != owner@,
        decreases list@.len() - i,
    {
        if list[i].owner.addr_eq(owner) {
            proof {
                lemma_ticket_index_unique(list@, owner@, i as int);
            }
            return Some(i);
        }
        i += 1;
    }
    proof {
        if has_ticket_for(list@, owner@) {
            let k = ticket_index(list@, owner@);
            assert(0 <= k < list@.len() && list@[k].owner@ == owner@);
        }
    }
    None
}

// ---------------------------------------------------------------------------
// Reward epochs, keyed by index, append-only.
// ---------------------------------------------------------------------------
/// No two epochs share an index.
pub open spec fn distinct_epoch_indexes(s: Seq<RewardsEpoch>) -> bool {
    forall|i: int, j: int| 0 <= i < j < s.len() ==> s[i].index != s[j].index
}

/// Whether an epoch with this index was published.
pub open spec fn has_epoch(s: Seq<RewardsEpoch>, index: u64) -> bool {
    exists|i: int| 0 <= i < s.len() && s[i].index == index
}

/// The position of the epoch with this index; meaningful only under
/// `has_epoch`.
pub open spec fn epoch_pos(s: Seq<RewardsEpoch>, index: u64) -> int {
    choose|i: int| 0 <= i < s.len() && s[i].index == index
}

/// The epoch with this index; meaningful only under `has_epoch`.
pub open spec fn epoch_for(s: Seq<RewardsEpoch>, index: u64) -> RewardsEpoch {
    s[epoch_pos(s, index)]
}

/// With distinct indexes, an epoch of `index` sits at the one position that
/// `epoch_pos` denotes.
pub proof fn lemma_epoch_pos_unique(s: Seq<RewardsEpoch>, index: u64, i: int)
    requires
        distinct_epoch_indexes(s),
        0 <= i < s.len(),
        s[i].index == index,
    ensures
        has_epoch(s, index),
        epoch_pos(s, index) == i,
        epoch_for(s, index) == s[i],
{
    assert(has_epoch(s, index));
    let j = epoch_pos(s, index);
    assert(0 <= j < s.len() && s[j].index == index);
    if i < j {
        assert(s[i].index != s[j].index);
    } else if j < i {
        assert(s[j].index != s[i].index);
    }
}

/// Appending an epoch with a fresh index publishes that epoch and leaves
/// every other index's record alone.
pub proof fn lemma_epoch_push(s: Seq<RewardsEpoch>, e: RewardsEpoch)
    requires
        distinct_epoch_indexes(s),
        !has_epoch(s, e.index),
    ensures
        distinct_epoch_indexes(s.push(e)),
        has_epoch(s.push(e), e.index),
        epoch_for(s.push(e), e.index) == e,
        forall|x: u64| x != e.index ==> #[trigger] has_epoch(s.push(e), x) == has_epoch(s, x),
        forall|x: u64|
            x != e.index && has_epoch(s, x) ==> #[trigger] epoch_for(s.push(e), x) == epoch_for(
                s,
                x,
            ),
{
    let u = s.push(e);
    assert forall|p: int, q: int| 0 <= p < q < u.len() implies u[p].index != u[q].index by {
        if q == s.len() {
            if u[p].index == e.index {
                assert(s[p].index == e.index);
            }
        }
    }
    lemma_epoch_pos_unique(u, e.index, s.len() as int);
    assert forall|x: u64| x != e.index implies #[trigger] has_epoch(u, x) == has_epoch(s, x) by {
        if has_epoch(s, x) {
            let k = epoch_pos(s, x);
            assert(0 <= k < s.len() && s[k].index == x);
            assert(u[k].index == x);
        }
        if has_epoch(u, x) {
            let k = choose|k: int| 0 <= k < u.len() && u[k].index == x;
            assert(k != s.len());
            assert(s[k].index == x);
        }
    }
    assert forall|x: u64| x != e.index && has_epoch(s, x) implies #[trigger] epoch_for(u, x)
        == epoch_for(s, x) by {
        let k = epoch_pos(s, x);
        lemma_epoch_pos_unique(s, x, k);
        assert(u[k].index == x);
        lemma_epoch_pos_unique(u, x, k);
    }
}

/// Finds the position of the epoch with this index, if one was published.
pub fn find_epoch(list: &Vec<RewardsEpoch>, index: u64) -> (r: Option<usize>)
    requires
        distinct_epoch_indexes(list@),
    ensures
        match r {
            Some(i) => {
                &&& i < list@.len()
                &&& list@[i as int].index == index
                &&& has_epoch(list@, index)
                &&& epoch_pos(list@, index) == i
                &&& epoch_for(list@, index) == list@[i as int]
            },
            None => !has_epoch(list@, index),
        },
{
    let mut i: usize = 0;
    while i < list.len()
        invariant
            distinct_epoch_indexes(list@),
            0 <= i <= list@.len(),
            forall|j: int| 0 <= j < i ==> list@[j].index != index,
        decreases list@.len() - i,
    {
        if list[i].index == index {
            proof {
                lemma_epoch_pos_unique(list@, index, i as int);
            }
            return Some(i);
        }
        i += 1;
    }
    proof {
        if has_epoch(list@, index) {
            let k = epoch_pos(list@, index);
            assert(0 <= k < list@.len() && list@[k].index == index);
        }
    }
    None
}

// ---------------------------------------------------------------------------
// Claim records, keyed by (epoch index, claimant), existence-only.
// ---------------------------------------------------------------------------
/// No two claim records share both epoch index and claimant.
pub open spec fn distinct_claims(s: Seq<ClaimRecord>) -> bool {
    forall|i: int, j: int|
        0 <= i < j < s.len() ==> !(s[i].epoch_index == s[j].epoch_index && s[i].claimant@
            == s[j].claimant@)
}

/// Whether (epoch, claimant) has already claimed.
pub open spec fn has_claim(s: Seq<ClaimRecord>, epoch_index: u64, claimant: Seq<u8>) -> bool {
    exists|i: int| 0 <= i < s.len() && s[i].epoch_index == epoch_index && s[i].claimant@ == claimant
}

/// Appending a fresh claim record marks exactly that pair as claimed.
pub proof fn lemma_claim_push(s: Seq<ClaimRecord>, r: ClaimRecord)
    requires
        distinct_claims(s),
        !has_claim(s, r.epoch_index, r.claimant@),
    ensures
        distinct_claims(s.push(r)),
        has_claim(s.push(r), r.epoch_index, r.claimant@),
        forall|x: u64, c: Seq<u8>|
            !(x == r.epoch_index && c == r.claimant@) ==> #[trigger] has_claim(s.push(r), x, c)
                == has_claim(s, x, c),
{
    let u = s.push(r);
    assert forall|p: int, q: int| 0 <= p < q < u.len() implies !(u[p].epoch_index
        == u[q].epoch_index && u[p].claimant@ == u[q].claimant@) by {
        if q == s.len() {
            if u[p].epoch_index == r.epoch_index && u[p].claimant@ == r.claimant@ {
                assert(s[p].epoch_index == r.epoch_index && s[p].claimant@ == r.claimant@);
            }
        }
    }
    assert(u[s.len() as int].epoch_index == r.epoch_index && u[s.len() as int].claimant@
        == r.claimant@);
    assert forall|x: u64, c: Seq<u8>| !(x == r.epoch_index && c == r.claimant@) implies #[trigger] has_claim(
        u,
        x,
        c,
    ) == has_claim(s, x, c) by {
        if has_claim(s, x, c) {
            let k = choose|k: int|
                0 <= k < s.len() && s[k].epoch_index == x && s[k].claimant@ == c;
            assert(u[k].epoch_index == x && u[k].claimant@ == c);
        }
        if has_claim(u, x, c) {
            let k = choose|k: int|
                0 <= k < u.len() && u[k].epoch_index == x && u[k].claimant@ == c;
            assert(k != s.len());
            assert(s[k].epoch_index == x && s[k].claimant@ == c);
        }
    }
}

/// Whether a claim record for (epoch, claimant) exists.
pub fn claim_exists(list: &Vec<ClaimRecord>, epoch_index: u64, claimant: &Address) -> (r: bool)
    ensures
        r == has_claim(list@, epoch_index, claimant@),
{
    let mut i: usize = 0;
    while i < list.len()
        invariant
            0 <= i <= list@.len(),
            forall|j: int|
                0 <= j < i ==> !(list@[j].epoch_index == epoch_index && list@[j].claimant@
                    == claimant@),
        decreases list@.len() - i,
    {
        if list[i].epoch_index == epoch_index && list[i].claimant.addr_eq(claimant) {
            assert(has_claim(list@, epoch_index, claimant@));
            return true;
        }
        i += 1;
    }
    proof {
        if has_claim(list@, epoch_index, claimant@) {
            let k = choose|k: int|
                0 <= k < list@.len() && list@[k].epoch_index == epoch_index && list@[k].claimant@
                    == claimant@;
            assert(0 <= k < list@.len());
        }
    }
    false
}

} // verus!
