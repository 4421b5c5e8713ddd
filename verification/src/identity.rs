//! The two identities that follow from a fund's index alone: the account that
//! holds the fund's money, and the namespace of its contribution ledger.

use vstd::prelude::*;
use vstd::bytes::{spec_u32_to_le_bytes, u32_to_le_bytes};
use frame_support::sp_runtime::traits::{AccountIdConversion, BlakeTwo256};
use frame_support::PalletId;
use crate::types::{AccountId, FundIndex};

verus! {

/// The tag under which the crowdfund derives its accounts: `ex/cfund`.
pub const PALLET_ID: [u8; 8] = [0x65, 0x78, 0x2f, 0x63, 0x66, 0x75, 0x6e, 0x64];

/// The prefix of the seed of a fund's ledger namespace: `crowdfnd`.
pub const CHILD_PREFIX: [u8; 8] = [0x63, 0x72, 0x6f, 0x77, 0x64, 0x66, 0x6e, 0x64];

/// The number that eight bytes spell, lowest byte first.
pub open spec fn le_value(bytes: Seq<u8>) -> int {
    bytes[0] + bytes[1] * 0x100 + bytes[2] * 0x1_0000 + bytes[3] * 0x100_0000 + bytes[4]
        * 0x1_0000_0000 + bytes[5] * 0x100_0000_0000 + bytes[6] * 0x1_0000_0000_0000 + bytes[7]
        * 0x100_0000_0000_0000
}

/// The account derived from the tag `id` and the number `sub`: the sixteen
/// bytes `modl`, then `id`, then `sub` lowest byte first, read as one number,
/// lowest byte first.
pub open spec fn sub_account(id: Seq<u8>, sub: u32) -> int {
    0x6c64_6f6d + le_value(id) * 0x1_0000_0000 + sub * 0x1_0000_0000_0000_0000_0000_0000
}

/// The account that holds the money of the fund `index`.
pub open spec fn fund_account(index: FundIndex) -> AccountId {
    sub_account(PALLET_ID@, index) as AccountId
}

/// Whether `who` is the account of some fund.
pub open spec fn is_fund_account(who: AccountId) -> bool {
    exists|index: FundIndex| who == fund_account(index)
}

/// `PalletId::into_sub_account_truncating`, as `frame_support` and
/// `sp_runtime` define it for an account that is a 128-bit number.
///
/// The call encodes the type tag `modl`, the eight bytes of `id` and the four
/// bytes of `sub` (lowest first) one after the other, and decodes those
/// sixteen bytes as a little-endian number. It cannot fail: every sixteen
/// bytes are a number.
#[verifier::external_body]
fn into_sub_account(id: [u8; 8], sub: u32) -> (account: AccountId)
    ensures
        account == sub_account(id@, sub),
{
    PalletId(id).into_sub_account_truncating(sub)
}

/// The account of each fund is the tag's number plus the index, shifted past it.
pub proof fn lemma_fund_account_value(index: FundIndex)
    ensures
        fund_account(index) == 0x646e_7566_632f_7865_6c64_6f6d + index
            * 0x1_0000_0000_0000_0000_0000_0000,
{
}

/// Different funds have different accounts.
pub proof fn lemma_fund_account_injective(i: FundIndex, j: FundIndex)
    ensures
        fund_account(i) == fund_account(j) <==> i == j,
{
    lemma_fund_account_value(i);
    lemma_fund_account_value(j);
}

/// Computes the account that holds the money of the fund `index`.
///
/// The account follows from the index alone, so nothing needs to record it.
pub fn fund_account_id(index: FundIndex) -> (account: AccountId)
    ensures
        account == fund_account(index),
{
    into_sub_account(PALLET_ID, index)
}

/// What the Blake2b hash function, with a digest of 32 bytes, makes of `data`.
pub uninterp spec fn blake2_256(data: Seq<u8>) -> Seq<u8>;

/// `BlakeTwo256::hash` of `sp_runtime`: the Blake2b digest of `data`, 32
/// bytes long. The digest depends on `data` alone.
#[verifier::external_body]
fn blake2_256_hash(data: &[u8]) -> (digest: [u8; 32])
    ensures
        digest@ == blake2_256(data@),
{
    <BlakeTwo256 as frame_support::sp_runtime::traits::Hash>::hash(data).0
}

/// The bytes that are hashed into the namespace of the fund `index`: the
/// fixed prefix, then the index, lowest byte first.
pub open spec fn child_seed(index: FundIndex) -> Seq<u8> {
    CHILD_PREFIX@ + spec_u32_to_le_bytes(index)
}

/// Computes the identifier of the namespace that holds the contributions to
/// the fund `index`: the hash of the fixed prefix and the index.
pub fn id_from_index(index: FundIndex) -> (id: [u8; 32])
    ensures
        id@ == blake2_256(child_seed(index)),
{
    let mut buf: Vec<u8> = Vec::new();
    buf.extend_from_slice(CHILD_PREFIX.as_slice());
    let le = u32_to_le_bytes(index);
    buf.extend_from_slice(le.as_slice());
    assert(buf@ =~= child_seed(index));
    blake2_256_hash(buf.as_slice())
}

} // verus!
