//! A custodial vault-and-staking engine.
//!
//! Users deposit a reference token into a pooled vault and receive a
//! derivative stake token one-for-one; they unwind the position through a
//! time-locked unbonding ticket; reward batches are published as Merkle
//! roots per epoch and claimed with a sibling-path proof. Every privileged
//! mutation is gated either by the program's upgrade authority or by one of
//! two rotatable administrator lists.

use vstd::prelude::*;

pub mod crypto;
pub mod engine;
pub mod error;
pub mod events;
pub mod guard;
pub mod laws;
pub mod merkle;
pub mod state;
pub mod store;

verus! {

/// Identity of an account, token mint or authority: a 32-byte key.
#[derive(Clone, Copy, Debug)]
pub struct Address {
    pub bytes: [u8; 32],
}

impl View for Address {
    type V = Seq<u8>;

    open spec fn view(&self) -> Seq<u8> {
        self.bytes@
    }
}

impl Address {
    /// Compares two identities byte for byte.
    pub fn addr_eq(&self, other: &Address) -> (r: bool)
        ensures
            r == (self@ == other@),
    {
        let mut i: usize = 0;
        while i < 32
            invariant
                0 <= i <= 32,
                forall|j: int| 0 <= j < i ==> self.bytes@[j] == other.bytes@[j],
            decreases 32 - i,
        {
            if self.bytes[i] != other.bytes[i] {
                return false;
            }
            i += 1;
        }
        proof {
            assert(self.bytes@ =~= other.bytes@);
        }
        true
    }
}

/// The view of an optional address: the optional byte string it carries.
pub open spec fn opt_addr_view(o: Option<Address>) -> Option<Seq<u8>> {
    match o {
        Some(a) => Some(a@),
        None => None,
    }
}

/// Whether some entry of an address list carries the bytes `x`.
pub open spec fn addrs_contain(s: Seq<Address>, x: Seq<u8>) -> bool {
    exists|i: int| 0 <= i < s.len() && s[i]@ == x
}

/// Looks `a` up in `list` by byte-for-byte comparison.
pub fn contains_address(list: &Vec<Address>, a: &Address) -> (r: bool)
    ensures
        r == addrs_contain(list@, a@),
{
    let mut i: usize = 0;
    while i < list.len()
        invariant
            0 <= i <= list@.len(),
            forall|j: int| 0 <= j < i ==> list@[j]@ != a@,
        decreases list@.len() - i,
    {
        if list[i].addr_eq(a) {
            return true;
        }
        i += 1;
    }
    false
}

} // verus!
