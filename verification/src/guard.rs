//! The authority guard. Root-gated operations hand over the raw bytes of the
//! program's metadata record, kept by the host's upgradeable loader; the guard
//! parses that record and admits the call only when the claimed signer is the
//! registered upgrade authority.
//!
//! The record layout is the loader's: a 4-byte little-endian variant tag,
//! then the variant's fields; an optional key is one tag byte (0 or 1)
//! followed, when present, by 32 key bytes; trailing bytes are ignored.

use vstd::prelude::*;
use crate::Address;
use crate::opt_addr_view;
use crate::crypto::program_data_address_of;
use crate::error::CustomErrorCode;

verus! {

/// A parsed program-metadata record, over mathematical values.
pub enum LoaderStateView {
    Uninitialized,
    Buffer { authority_address: Option<Seq<u8>> },
    Program { programdata_address: Seq<u8> },
    ProgramData { slot: int, upgrade_authority_address: Option<Seq<u8>> },
}

/// A parsed program-metadata record.
#[derive(Debug)]
pub enum LoaderState {
    Uninitialized,
    Buffer { authority_address: Option<Address> },
    Program { programdata_address: Address },
    ProgramData { slot: u64, upgrade_authority_address: Option<Address> },
}

impl View for LoaderState {
    type V = LoaderStateView;

    open spec fn view(&self) -> LoaderStateView {
        match *self {
            LoaderState::Uninitialized => LoaderStateView::Uninitialized,
            LoaderState::Buffer { authority_address } => LoaderStateView::Buffer {
                authority_address: opt_addr_view(authority_address),
            },
            LoaderState::Program { programdata_address } => LoaderStateView::Program {
                programdata_address: programdata_address@,
            },
            LoaderState::ProgramData { slot, upgrade_authority_address } =>
                LoaderStateView::ProgramData {
                    slot: slot as int,
                    upgrade_authority_address: opt_addr_view(upgrade_authority_address),
                },
        }
    }
}

/// The view of an optional parsed record.
pub open spec fn opt_state_view(o: Option<LoaderState>) -> Option<LoaderStateView> {
    match o {
        Some(s) => Some(s@),
        None => None,
    }
}

/// The 4 bytes at `off`, read as a little-endian number.
pub open spec fn le_u32_at(b: Seq<u8>, off: int) -> int {
    b[off] + 0x100 * b[off + 1] + 0x1_0000 * b[off + 2] + 0x100_0000 * b[off + 3]
}

/// The 8 bytes at `off`, read as a little-endian number.
pub open spec fn le_u64_at(b: Seq<u8>, off: int) -> int {
    b[off] + 0x100 * b[off + 1] + 0x1_0000 * b[off + 2] + 0x100_0000 * b[off + 3] + 0x1_0000_0000
        * b[off + 4] + 0x100_0000_0000 * b[off + 5] + 0x1_0000_0000_0000 * b[off + 6]
        + 0x100_0000_0000_0000 * b[off + 7]
}

/// An optional key at `off`: one tag byte, then 32 key bytes when the tag
/// is 1. `None` when the bytes do not parse.
pub open spec fn parse_option_key(b: Seq<u8>, off: int) -> Option<Option<Seq<u8>>> {
    if b.len() < off + 1 {
        None
    } else if b[off] == 0 {
        Some(None)
    } else if b[off] == 1 {
        if b.len() < off + 33 {
            None
        } else {
            Some(Some(b.subrange(off + 1, off + 33)))
        }
    } else {
        None
    }
}

/// The loader's record format: variant tag, then the variant's fields.
/// `None` when the bytes do not parse; bytes past a parsed record are
/// ignored, as the record sits at the head of a larger account.
pub open spec fn parse_loader_state(b: Seq<u8>) -> Option<LoaderStateView> {
    if b.len() < 4 {
        None
    } else {
        let tag = le_u32_at(b, 0);
        if tag == 0 {
            Some(LoaderStateView::Uninitialized)
        } else if tag == 1 {
            match parse_option_key(b, 4) {
                Some(authority) => Some(LoaderStateView::Buffer { authority_address: authority }),
                None => None,
            }
        } else if tag == 2 {
            if b.len() < 36 {
                None
            } else {
                Some(LoaderStateView::Program { programdata_address: b.subrange(4, 36) })
            }
        } else if tag == 3 {
            if b.len() < 12 {
                None
            } else {
                match parse_option_key(b, 12) {
                    Some(authority) => Some(
                        LoaderStateView::ProgramData {
                            slot: le_u64_at(b, 4),
                            upgrade_authority_address: authority,
                        },
                    ),
                    None => None,
                }
            }
        } else {
            None
        }
    }
}

/// Reads 32 bytes at `off` as an address.
fn read_key(data: &Vec<u8>, off: usize) -> (r: Address)
    requires
        off + 32 <= data@.len(),
    ensures
        r@ == data@.subrange(off as int, off + 32),
{
    let n = data.len();
    let mut bytes = [0u8; 32];
    let mut j: usize = 0;
    while j < 32
        invariant
            n == data@.len(),
            off + 32 <= data@.len(),
            off + 32 <= usize::MAX,
            0 <= j <= 32,
            bytes@.len() == 32,
            forall|k: int| 0 <= k < j ==> bytes@[k] == data@[off + k],
        decreases 32 - j,
    {
        bytes[j] = data[off + j];
        j += 1;
    }
    proof {
        assert(bytes@ =~= data@.subrange(off as int, off + 32));
    }
    Address { bytes }
}

/// Reads an optional key at `off`.
fn read_option_key(data: &Vec<u8>, off: usize) -> (r: Option<Option<Address>>)
    requires
        off + 33 <= usize::MAX,
    ensures
        match r {
            Some(o) => parse_option_key(data@, off as int) == Some(opt_addr_view(o)),
            None => parse_option_key(data@, off as int) is None,
        },
{
    if data.len() < off + 1 {
        return None;
    }
    if data[off] == 0 {
        Some(None)
    } else if data[off] == 1 {
        if data.len() < off + 33 {
            return None;
        }
        let key = read_key(data, off + 1);
        Some(Some(key))
    } else {
        None
    }
}

/// Parses the program-metadata record at the head of `data`.
pub fn parse_upgradeable_loader_state(data: &Vec<u8>) -> (r: Option<LoaderState>)
    ensures
        opt_state_view(r) == parse_loader_state(data@),
{
    if data.len() < 4 {
        return None;
    }
    let tag: u32 = data[0] as u32 + 0x100 * (data[1] as u32) + 0x1_0000 * (data[2] as u32)
        + 0x100_0000 * (data[3] as u32);
    if tag == 0 {
        Some(LoaderState::Uninitialized)
    } else if tag == 1 {
        match read_option_key(data, 4) {
            Some(authority) => Some(LoaderState::Buffer { authority_address: authority }),
            None => None,
        }
    } else if tag == 2 {
        if data.len() < 36 {
            return None;
        }
        let key = read_key(data, 4);
        Some(LoaderState::Program { programdata_address: key })
    } else if tag == 3 {
        if data.len() < 12 {
            return None;
        }
        let slot: u64 = data[4] as u64 + 0x100 * (data[5] as u64) + 0x1_0000 * (data[6] as u64)
            + 0x100_0000 * (data[7] as u64) + 0x1_0000_0000 * (data[8] as u64) + 0x100_0000_0000
            * (data[9] as u64) + 0x1_0000_0000_0000 * (data[10] as u64) + 0x100_0000_0000_0000 * (
        data[11] as u64);
        match read_option_key(data, 12) {
            Some(authority) => Some(
                LoaderState::ProgramData { slot, upgrade_authority_address: authority },
            ),
            None => None,
        }
    } else {
        None
    }
}

/// Whether the metadata record sits at the deterministic address the loader
/// keeps for this program.
pub open spec fn metadata_address_ok(program_id: Seq<u8>, metadata_address: Seq<u8>) -> bool {
    program_data_address_of(program_id) == Some(metadata_address)
}

/// The upgrade authority the metadata records: `None` when the bytes do not
/// parse as a program-data record at all, `Some(None)` when the authority
/// was renounced, `Some(Some(a))` when `a` is registered.
pub open spec fn registered_upgrade_authority(data: Seq<u8>) -> Option<Option<Seq<u8>>> {
    match parse_loader_state(data) {
        Some(LoaderStateView::ProgramData { upgrade_authority_address, .. }) => Some(
            upgrade_authority_address,
        ),
        _ => None,
    }
}

/// Whether the guard admits `signer`: the metadata sits at the expected
/// derived address and registers `signer` as the upgrade authority.
pub open spec fn authority_ok(
    program_id: Seq<u8>,
    metadata_address: Seq<u8>,
    data: Seq<u8>,
    signer: Seq<u8>,
) -> bool {
    &&& metadata_address_ok(program_id, metadata_address)
    &&& registered_upgrade_authority(data) == Some(Some(signer))
}

/// The rejection the guard answers with when it does not admit `signer`;
/// meaningful only when `authority_ok` fails.
pub open spec fn guard_error_of(
    program_id: Seq<u8>,
    metadata_address: Seq<u8>,
    data: Seq<u8>,
    signer: Seq<u8>,
) -> CustomErrorCode {
    if !metadata_address_ok(program_id, metadata_address) {
        CustomErrorCode::InvalidProgramData
    } else {
        match registered_upgrade_authority(data) {
            None => CustomErrorCode::InvalidProgramData,
            Some(None) => CustomErrorCode::NoUpgradeAuthority,
            Some(Some(_)) => CustomErrorCode::InvalidUpgradeAuthority,
        }
    }
}

/// Confirms that `signer` is the program's registered upgrade authority.
///
/// Rejects with `InvalidProgramData` when the metadata record is somewhere
/// other than the program's derived metadata address or does not parse as a
/// program-data record; with `NoUpgradeAuthority` when the authority was
/// renounced; with `InvalidUpgradeAuthority` when the record registers a
/// different signer. No side effects.
pub fn validate_program_update_authority(
    program_id: &Address,
    metadata_address: &Address,
    data: &Vec<u8>,
    signer: &Address,
) -> (r: Result<(), CustomErrorCode>)
    ensures
        match r {
            Ok(()) => authority_ok(program_id@, metadata_address@, data@, signer@),
            Err(e) => {
                &&& !authority_ok(program_id@, metadata_address@, data@, signer@)
                &&& e == guard_error_of(program_id@, metadata_address@, data@, signer@)
            },
        },
{
    let expected = crate::crypto::get_program_data_address(program_id);
    match expected {
        None => Err(CustomErrorCode::InvalidProgramData),
        Some(derived) => {
            if !derived.addr_eq(metadata_address) {
                return Err(CustomErrorCode::InvalidProgramData);
            }
            match parse_upgradeable_loader_state(data) {
                Some(LoaderState::ProgramData { slot: _, upgrade_authority_address }) => {
                    match upgrade_authority_address {
                        Some(registered) => {
                            if registered.addr_eq(signer) {
                                Ok(())
                            } else {
                                Err(CustomErrorCode::InvalidUpgradeAuthority)
                            }
                        },
                        None => Err(CustomErrorCode::NoUpgradeAuthority),
                    }
                },
                _ => Err(CustomErrorCode::InvalidProgramData),
            }
        },
    }
}

} // verus!
