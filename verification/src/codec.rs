use vstd::prelude::*;

use crate::state::{AccountId, ProgramInfo, Vault};

verus! {

/// A little-endian 32-bit value read from four bytes.
pub open spec fn u32_le(b: Seq<u8>) -> int {
    b[0] + 0x100 * b[1] + 0x10000 * b[2] + 0x1000000 * b[3]
}

/// A little-endian 64-bit value read from eight bytes.
pub open spec fn u64_le(b: Seq<u8>) -> int {
    b[0] + 0x100 * b[1] + 0x10000 * b[2] + 0x1000000 * b[3] + 0x100000000 * b[4] + 0x10000000000
        * b[5] + 0x1000000000000 * b[6] + 0x100000000000000 * b[7]
}

/// An account identity read from 32 bytes, as four little-endian words.
pub open spec fn account_id_le(b: Seq<u8>) -> AccountId {
    AccountId {
        w0: u64_le(b.subrange(0, 8)) as u64,
        w1: u64_le(b.subrange(8, 16)) as u64,
        w2: u64_le(b.subrange(16, 24)) as u64,
        w3: u64_le(b.subrange(24, 32)) as u64,
    }
}

pub fn read_u32_le(data: &Vec<u8>, offset: usize) -> (r: u32)
    requires
        offset + 4 <= data@.len(),
    ensures
        r as int == u32_le(data@.subrange(offset as int, offset + 4)),
{
    let _n: usize = data.len();
    let ghost b = data@.subrange(offset as int, offset as int + 4);
    let r = (data[offset] as u32) + 0x100 * (data[offset + 1] as u32) + 0x10000 * (data[offset
        + 2] as u32) + 0x1000000 * (data[offset + 3] as u32);
    proof {
        assert(b[0] == data@[offset as int] && b[1] == data@[offset + 1] && b[2] == data@[offset
            + 2] && b[3] == data@[offset + 3]);
    }
    r
}

pub fn read_u64_le(data: &Vec<u8>, offset: usize) -> (r: u64)
    requires
        offset + 8 <= data@.len(),
    ensures
        r as int == u64_le(data@.subrange(offset as int, offset + 8)),
{
    let _n: usize = data.len();
    let ghost b = data@.subrange(offset as int, offset as int + 8);
    let r = (data[offset] as u64) + 0x100 * (data[offset + 1] as u64) + 0x10000 * (data[offset
        + 2] as u64) + 0x1000000 * (data[offset + 3] as u64) + 0x100000000 * (data[offset
        + 4] as u64) + 0x10000000000 * (data[offset + 5] as u64) + 0x1000000000000 * (data[offset
        + 6] as u64) + 0x100000000000000 * (data[offset + 7] as u64);
    proof {
        assert(b[0] == data@[offset as int] && b[1] == data@[offset + 1] && b[2] == data@[offset
            + 2] && b[3] == data@[offset + 3] && b[4] == data@[offset + 4] && b[5] == data@[offset
            + 5] && b[6] == data@[offset + 6] && b[7] == data@[offset + 7]);
    }
    r
}

pub fn read_account_id(data: &Vec<u8>, offset: usize) -> (r: AccountId)
    requires
        offset + 32 <= data@.len(),
    ensures
        r == account_id_le(data@.subrange(offset as int, offset + 32)),
{
    let _n: usize = data.len();
    let w0 = read_u64_le(data, offset);
    let w1 = read_u64_le(data, offset + 8);
    let w2 = read_u64_le(data, offset + 16);
    let w3 = read_u64_le(data, offset + 24);
    proof {
        let b = data@.subrange(offset as int, offset + 32);
        assert(b.subrange(0, 8) =~= data@.subrange(offset as int, offset + 8));
        assert(b.subrange(8, 16) =~= data@.subrange(offset + 8, offset + 16));
        assert(b.subrange(16, 24) =~= data@.subrange(offset + 16, offset + 24));
        assert(b.subrange(24, 32) =~= data@.subrange(offset + 24, offset + 32));
    }
    AccountId { w0, w1, w2, w3 }
}

/// True when the account data opens with the expected eight-byte record
/// discriminator.
pub fn check_discriminator(data: &Vec<u8>, expected: &Vec<u8>) -> (r: bool)
    requires
        expected@.len() == 8,
    ensures
        r == (data@.len() >= 8 && data@.take(8) == expected@),
{
    if data.len() < 8 {
        return false;
    }
    let mut i: usize = 0;
    while i < 8
        invariant
            i <= 8,
            data@.len() >= 8,
            expected@.len() == 8,
            forall|j: int| 0 <= j < i ==> data@[j] == expected@[j],
        decreases 8 - i,
    {
        if data[i] != expected[i] {
            proof {
                assert(data@.take(8)[i as int] != expected@[i as int]);
            }
            return false;
        }
        i = i + 1;
    }
    proof {
        assert(data@.take(8) =~= expected@);
    }
    true
}

/// The byte length of a serialised `ProgramInfo` record, its discriminator
/// included: 8 + 32 + 1 + 4.
pub const PROGRAM_INFO_DATA_LEN: usize = 45;

/// Decodes a fetched `ProgramInfo` account: an eight-byte record
/// discriminator, the admin identity, the derivation proof and the vault
/// count, in the record's declared field order, integers little-endian.
/// Returns None when the data is shorter than a record or opens with the
/// wrong discriminator.
pub fn parse_program_info(data: &Vec<u8>, expected_discriminator: &Vec<u8>) -> (r: Option<
    ProgramInfo,
>)
    requires
        expected_discriminator@.len() == 8,
    ensures
        (data@.len() >= PROGRAM_INFO_DATA_LEN && data@.take(8) == expected_discriminator@) ==> r
            == Some(
            ProgramInfo {
                admin: account_id_le(data@.subrange(8, 40)),
                bump: data@[40],
                vaults_count: u32_le(data@.subrange(41, 45)) as u32,
            },
        ),
        (data@.len() < PROGRAM_INFO_DATA_LEN || data@.take(8) != expected_discriminator@) ==> r
            is None,
{
    if data.len() < PROGRAM_INFO_DATA_LEN {
        return None;
    }
    if !check_discriminator(data, expected_discriminator) {
        return None;
    }
    let admin = read_account_id(data, 8);
    let bump = data[40];
    let vaults_count = read_u32_le(data, 41);
    Some(ProgramInfo { admin, bump, vaults_count })
}

/// The byte length of a serialised `Vault` record, its discriminator
/// included: 8 + 1 + 32 + 8 + 32 + 32 + 4 + 8.
pub const VAULT_DATA_LEN: usize = 125;

/// Decodes a fetched `Vault` account, in the record's declared field order:
/// discriminator, derivation proof, owner, mirrored balance, backing account
/// address, asset type, index, creation date. The decoded record is a
/// transient view of the host's durable state: its balance history is not
/// recoverable from the bytes.
pub fn parse_vault(data: &Vec<u8>, expected_discriminator: &Vec<u8>) -> (r: Option<Vault>)
    requires
        expected_discriminator@.len() == 8,
    ensures
        (data@.len() >= VAULT_DATA_LEN && data@.take(8) == expected_discriminator@) ==> (r
            matches Some(v) && v.bump == data@[8] && v.owner == account_id_le(data@.subrange(9, 41))
            && v.total_balance as int == u64_le(data@.subrange(41, 49)) && v.spl_token_account
            == account_id_le(data@.subrange(49, 81)) && v.spl_token_mint == account_id_le(
            data@.subrange(81, 113),
        ) && v.vault_num as int == u32_le(data@.subrange(113, 117)) && v.creation_date == (u64_le(
            data@.subrange(117, 125),
        ) as u64) as i64),
        (data@.len() < VAULT_DATA_LEN || data@.take(8) != expected_discriminator@) ==> r is None,
{
    if data.len() < VAULT_DATA_LEN {
        return None;
    }
    if !check_discriminator(data, expected_discriminator) {
        return None;
    }
    let bump = data[8];
    let owner = read_account_id(data, 9);
    let total_balance = read_u64_le(data, 41);
    let spl_token_account = read_account_id(data, 49);
    let spl_token_mint = read_account_id(data, 81);
    let vault_num = read_u32_le(data, 113);
    let raw_date = read_u64_le(data, 117);
    let creation_date = #[verifier::truncate] (raw_date as i64);
    Some(
        Vault {
            bump,
            owner,
            total_balance,
            spl_token_account,
            spl_token_mint,
            vault_num,
            creation_date,
            history: Ghost(Seq::empty()),
        },
    )
}

} // verus!
