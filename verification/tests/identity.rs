use frame_support::sp_runtime::traits::{AccountIdConversion, BlakeTwo256};
use frame_support::storage::child::ChildInfo;
use frame_support::PalletId;
use pallet_crowdfund::identity::{fund_account_id, id_from_index, CHILD_PREFIX, PALLET_ID};
use pallet_crowdfund::{AccountId, FundIndex, Pallet};

#[test]
fn the_tags_spell_their_names() {
    assert_eq!(&PALLET_ID, b"ex/cfund");
    assert_eq!(&CHILD_PREFIX, b"crowdfnd");
}

#[test]
fn fund_accounts_have_the_expected_values() {
    assert_eq!(fund_account_id(0), 0x0000_0000_646e_7566_632f_7865_6c64_6f6d);
    assert_eq!(fund_account_id(1), 0x0000_0001_646e_7566_632f_7865_6c64_6f6d);
    assert_eq!(fund_account_id(0x0102_0304), 0x0102_0304_646e_7566_632f_7865_6c64_6f6d);
    assert_eq!(fund_account_id(u32::MAX), 0xffff_ffff_646e_7566_632f_7865_6c64_6f6d);
    assert_eq!(Pallet::fund_account_id(7), fund_account_id(7));
}

#[test]
fn fund_accounts_spell_the_tag_and_the_index() {
    let bytes: [u8; 16] = fund_account_id(0x0a0b_0c0d).to_le_bytes();
    assert_eq!(&bytes[0..4], b"modl");
    assert_eq!(&bytes[4..12], b"ex/cfund");
    assert_eq!(&bytes[12..16], &0x0a0b_0c0d_u32.to_le_bytes());
}

#[test]
fn fund_accounts_agree_with_the_pallet_id_conversion() {
    let id = PalletId(*b"ex/cfund");
    let indices: [FundIndex; 5] = [0, 1, 2, 77_777, u32::MAX];
    for index in indices {
        let expected: AccountId = id.into_sub_account_truncating(index);
        assert_eq!(fund_account_id(index), expected);
    }
}

#[test]
fn fund_accounts_differ() {
    let indices: [FundIndex; 6] = [0, 1, 2, 255, 256, u32::MAX];
    for i in indices {
        for j in indices {
            assert_eq!(fund_account_id(i) == fund_account_id(j), i == j);
        }
    }
}

#[test]
fn fund_account_is_recomputed_the_same() {
    assert_eq!(fund_account_id(5), fund_account_id(5));
}

#[test]
fn namespace_id_is_the_hash_of_prefix_and_index() {
    let indices: [FundIndex; 4] = [0, 1, 0x0102_0304, u32::MAX];
    for index in indices {
        let mut seed: Vec<u8> = b"crowdfnd".to_vec();
        seed.extend_from_slice(&index.to_le_bytes());
        assert_eq!(seed.len(), 12);
        let expected: [u8; 32] =
            <frame_support::Blake2_256 as frame_support::StorageHasher>::hash(&seed);
        assert_eq!(id_from_index(index), expected);
        assert_eq!(
            id_from_index(index),
            <BlakeTwo256 as frame_support::sp_runtime::traits::Hash>::hash(&seed).0
        );
        assert_ne!(&id_from_index(index)[..12], &seed[..]);
        assert_eq!(Pallet::id_from_index(index), expected);
    }
}

#[test]
fn namespace_ids_differ_and_repeat() {
    assert_ne!(id_from_index(0), id_from_index(1));
    assert_ne!(id_from_index(1), id_from_index(256));
    assert_eq!(id_from_index(9), id_from_index(9));
}

#[test]
fn namespace_id_names_a_child_store() {
    let id: [u8; 32] = id_from_index(3);
    let info = ChildInfo::new_default(&id);
    assert_eq!(info.storage_key(), &id[..]);
}
