//! The two cryptographic primitives the engine borrows from the host ledger's
//! SDK: the 32-byte SHA-256 digest and deterministic program-address
//! derivation. Both are pure functions of their inputs; the library names
//! their results and builds its contracts over those names.

use vstd::prelude::*;
use crate::Address;
use crate::opt_addr_view;

verus! {

/// The SHA-256 digest of a byte string.
pub uninterp spec fn sha256_of(data: Seq<u8>) -> Seq<u8>;

/// Relies on `anchor_lang::solana_program::hash::hashv` (SHA-256): the digest
/// is 32 bytes and depends on the input bytes alone.
#[verifier::external_body]
pub(crate) fn sha256(data: &Vec<u8>) -> (r: Vec<u8>)
    ensures
        r@ == sha256_of(data@),
        r@.len() == 32,
{
    anchor_lang::solana_program::hash::hashv(&[data.as_slice()]).to_bytes().to_vec()
}

/// The program-derived address for a single seed under a deriving program,
/// or `None` when no salt byte pushes the candidate off the curve.
pub uninterp spec fn pda_of(seed: Seq<u8>, owner: Seq<u8>) -> Option<Seq<u8>>;

/// Relies on `Pubkey::try_find_program_address`: the derived address is a
/// pure function of the seed list and the deriving program's id, and the
/// search either finds an off-curve address or reports `None`.
#[verifier::external_body]
pub(crate) fn try_find_pda(seed: &Vec<u8>, owner: &Address) -> (r: Option<Address>)
    ensures
        opt_addr_view(r) == pda_of(seed@, owner@),
{
    let owner_key = anchor_lang::prelude::Pubkey::new_from_array(owner.bytes);
    match anchor_lang::prelude::Pubkey::try_find_program_address(&[seed.as_slice()], &owner_key) {
        Some((key, _bump)) => Some(Address { bytes: key.to_bytes() }),
        None => None,
    }
}

/// The identity of the host's upgradeable program loader, which owns every
/// program's metadata record.
pub open spec fn upgradeable_loader_id() -> Seq<u8> {
    seq![
        2u8, 168u8, 246u8, 145u8, 78u8, 136u8, 161u8, 176u8,
        226u8, 16u8, 21u8, 62u8, 247u8, 99u8, 174u8, 43u8,
        0u8, 194u8, 185u8, 61u8, 22u8, 193u8, 36u8, 210u8,
        192u8, 83u8, 122u8, 16u8, 4u8, 128u8, 0u8, 0u8,
    ]
}

/// The upgradeable loader's identity as an address value.
pub fn upgradeable_loader_address() -> (r: Address)
    ensures
        r@ == upgradeable_loader_id(),
{
    let r = Address {
        bytes: [
            2u8, 168u8, 246u8, 145u8, 78u8, 136u8, 161u8, 176u8,
            226u8, 16u8, 21u8, 62u8, 247u8, 99u8, 174u8, 43u8,
            0u8, 194u8, 185u8, 61u8, 22u8, 193u8, 36u8, 210u8,
            192u8, 83u8, 122u8, 16u8, 4u8, 128u8, 0u8, 0u8,
        ],
    };
    proof {
        assert(r@ =~= upgradeable_loader_id());
    }
    r
}

/// The label under which the vault's custodial authority is derived:
/// the bytes of "vault_authority".
pub open spec fn vault_authority_label() -> Seq<u8> {
    seq![
        118u8, 97u8, 117u8, 108u8, 116u8, 95u8, 97u8, 117u8,
        116u8, 104u8, 111u8, 114u8, 105u8, 116u8, 121u8,
    ]
}

/// The vault-authority label as a seed value.
pub fn vault_authority_seed() -> (r: Vec<u8>)
    ensures
        r@ == vault_authority_label(),
{
    let bytes: [u8; 15] = [
        118u8, 97u8, 117u8, 108u8, 116u8, 95u8, 97u8, 117u8,
        116u8, 104u8, 111u8, 114u8, 105u8, 116u8, 121u8,
    ];
    let r = vstd::slice::slice_to_vec(bytes.as_slice());
    proof {
        assert(r@ =~= vault_authority_label());
    }
    r
}

/// The label under which the freeze authority is derived: the bytes of
/// "freeze_authority".
pub open spec fn freeze_authority_label() -> Seq<u8> {
    seq![
        102u8, 114u8, 101u8, 101u8, 122u8, 101u8, 95u8, 97u8,
        117u8, 116u8, 104u8, 111u8, 114u8, 105u8, 116u8, 121u8,
    ]
}

/// The freeze-authority label as a seed value.
pub fn freeze_authority_seed() -> (r: Vec<u8>)
    ensures
        r@ == freeze_authority_label(),
{
    let bytes: [u8; 16] = [
        102u8, 114u8, 101u8, 101u8, 122u8, 101u8, 95u8, 97u8,
        117u8, 116u8, 104u8, 111u8, 114u8, 105u8, 116u8, 121u8,
    ];
    let r = vstd::slice::slice_to_vec(bytes.as_slice());
    proof {
        assert(r@ =~= freeze_authority_label());
    }
    r
}

/// Where the metadata record of `program_id` must live: the derived address
/// of the program's own identity under the upgradeable loader.
pub open spec fn program_data_address_of(program_id: Seq<u8>) -> Option<Seq<u8>> {
    pda_of(program_id, upgradeable_loader_id())
}

/// Derives the address of the metadata record that the upgradeable loader
/// keeps for `program_id`.
pub fn get_program_data_address(program_id: &Address) -> (r: Option<Address>)
    ensures
        opt_addr_view(r) == program_data_address_of(program_id@),
{
    let loader = upgradeable_loader_address();
    let mut seed: Vec<u8> = Vec::new();
    let mut i: usize = 0;
    while i < 32
        invariant
            0 <= i <= 32,
            seed@ =~= program_id.bytes@.take(i as int),
        decreases 32 - i,
    {
        seed.push(program_id.bytes[i]);
        i += 1;
    }
    proof {
        assert(seed@ =~= program_id@);
    }
    try_find_pda(&seed, &loader)
}

} // verus!
