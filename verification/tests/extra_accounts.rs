use boom::address::Address;
use boom::extra_accounts::{
    initialize_extra_account_meta_list, initialize_extra_account_meta_list_empty, is_blank,
    keep_or_restore, lockdown_account_list, pack_extra_account, pack_extra_accounts,
    store_extra_accounts, upgrade_extra_account_meta_list, ExtraAccount, PackedAccount,
    SeedConfig, LIST_ENTRY_LEN, LIST_HEADER_LEN, LOCKDOWN_LIST_LEN,
};
use boom::hook::{initialize, HookFailure, EXECUTE_DISCRIMINATOR};
use spl_tlv_account_resolution::account::ExtraAccountMeta;
use spl_tlv_account_resolution::seeds::Seed;
use spl_tlv_account_resolution::state::ExtraAccountMetaList;
use spl_transfer_hook_interface::instruction::ExecuteInstruction;

const OWNER: u8 = 9;
const STRANGER: u8 = 50;

fn who(tag: u8) -> Address {
    Address::new_from_array([tag; 32])
}

fn blank() -> Vec<u8> {
    vec![0u8; ExtraAccountMetaList::size_of(2).unwrap()]
}

fn literal(len: usize) -> ExtraAccount {
    ExtraAccount {
        seeds: vec![SeedConfig::Literal { bytes: vec![7u8; len] }],
        is_signer: true,
        is_writable: false,
    }
}

/// The list of a hook in force as the account-resolution library writes it
/// into blank storage of the usual size.
fn written_by_the_ledgers_library() -> Vec<u8> {
    let metas = vec![
        ExtraAccountMeta::new_with_seeds(
            &[Seed::Literal { bytes: b"hook_config".to_vec() }],
            false,
            false,
        )
        .unwrap(),
        ExtraAccountMeta::new_with_seeds(
            &[Seed::Literal { bytes: b"whitelist".to_vec() }, Seed::AccountKey { index: 1 }],
            false,
            false,
        )
        .unwrap(),
    ];
    let mut data = blank();
    ExtraAccountMetaList::init::<ExecuteInstruction>(&mut data, &metas).unwrap();
    data
}

#[test]
fn list_in_force_names_config_and_whitelist() {
    assert_eq!(
        lockdown_account_list(),
        vec![
            ExtraAccount {
                seeds: vec![SeedConfig::Literal { bytes: b"hook_config".to_vec() }],
                is_signer: false,
                is_writable: false
            },
            ExtraAccount {
                seeds: vec![
                    SeedConfig::Literal { bytes: b"whitelist".to_vec() },
                    SeedConfig::AccountKey { index: 1 }
                ],
                is_signer: false,
                is_writable: false
            },
        ]
    );
}

#[test]
fn accounts_are_packed_as_tag_length_bytes() {
    let packed = pack_extra_accounts(&lockdown_account_list()).unwrap();
    assert_eq!(packed.len(), 2);
    let mut config = [0u8; 32];
    config[..13].copy_from_slice(&[1, 11, 104, 111, 111, 107, 95, 99, 111, 110, 102, 105, 103]);
    assert_eq!(
        packed[0],
        PackedAccount {
            discriminator: 1,
            address_config: config,
            is_signer: false,
            is_writable: false
        }
    );
    let mut whitelist = [0u8; 32];
    whitelist[..13].copy_from_slice(&[1, 9, 119, 104, 105, 116, 101, 108, 105, 115, 116, 3, 1]);
    assert_eq!(
        packed[1],
        PackedAccount {
            discriminator: 1,
            address_config: whitelist,
            is_signer: false,
            is_writable: false
        }
    );
}

#[test]
fn flags_are_taken_over_as_they_are() {
    let packed = pack_extra_account(&literal(4)).unwrap();
    assert!(packed.is_signer);
    assert!(!packed.is_writable);
    let other = pack_extra_account(&ExtraAccount {
        seeds: vec![SeedConfig::AccountKey { index: 2 }],
        is_signer: false,
        is_writable: true,
    })
    .unwrap();
    assert!(!other.is_signer);
    assert!(other.is_writable);
    assert_eq!(&other.address_config[..3], &[3, 2, 0]);
}

#[test]
fn parts_that_do_not_fit_are_not_packed() {
    assert!(pack_extra_account(&literal(30)).is_some());
    assert!(pack_extra_account(&literal(31)).is_none());
    assert!(pack_extra_account(&literal(32)).is_none());
    assert!(pack_extra_account(&literal(33)).is_none());
    assert!(pack_extra_account(&literal(254)).is_none());
    assert!(pack_extra_account(&literal(300)).is_none());
    let mut list = lockdown_account_list();
    list.push(literal(40));
    assert!(pack_extra_accounts(&list).is_none());
    assert_eq!(pack_extra_accounts(&Vec::new()), Some(Vec::new()));
}

#[test]
fn blank_storage_has_an_empty_tag() {
    assert!(is_blank(&vec![0u8; 8]));
    assert!(is_blank(&blank()));
    assert!(!is_blank(&vec![0u8; 7]));
    assert!(!is_blank(&Vec::new()));
    let mut used = blank();
    used[7] = 1;
    assert!(!is_blank(&used));
    let mut later = blank();
    later[8] = 1;
    assert!(is_blank(&later));
}

#[test]
fn empty_list_is_stored_with_no_entries() {
    let mut data = blank();
    assert_eq!(initialize_extra_account_meta_list_empty(&mut data), Ok(()));
    assert_eq!(&data[..8], &EXECUTE_DISCRIMINATOR[..]);
    assert_eq!(&data[8..12], &4u32.to_le_bytes());
    assert_eq!(&data[12..16], &0u32.to_le_bytes());
    assert!(data[16..].iter().all(|byte| *byte == 0));
    let mut expected = blank();
    ExtraAccountMetaList::init::<ExecuteInstruction>(&mut expected, &[]).unwrap();
    assert_eq!(data, expected);
}

#[test]
fn list_in_force_is_stored_as_the_ledgers_library_writes_it() {
    let mut data = blank();
    assert_eq!(initialize_extra_account_meta_list(&mut data), Ok(()));
    assert_eq!(data, written_by_the_ledgers_library());
    assert_eq!(&data[..8], &EXECUTE_DISCRIMINATOR[..]);
    assert_eq!(&data[8..12], &74u32.to_le_bytes());
    assert_eq!(&data[12..16], &2u32.to_le_bytes());
    assert_eq!(&data[16..30], &[1, 1, 11, 104, 111, 111, 107, 95, 99, 111, 110, 102, 105, 103]);
    assert_eq!(&data[51..65], &[1, 1, 9, 119, 104, 105, 116, 101, 108, 105, 115, 116, 3, 1]);
}

#[test]
fn storage_without_room_is_refused_and_left_as_it_was() {
    for len in [0usize, 7, 8, 11, 12, 20, 85] {
        let mut data = vec![0u8; len];
        assert_eq!(
            initialize_extra_account_meta_list(&mut data),
            Err(HookFailure::InvalidAccountData),
            "{} bytes",
            len
        );
        assert_eq!(data, vec![0u8; len]);
    }
    let mut enough = vec![0u8; 86];
    assert_eq!(initialize_extra_account_meta_list(&mut enough), Ok(()));
    let mut small = vec![0u8; 16];
    assert_eq!(initialize_extra_account_meta_list_empty(&mut small), Ok(()));
    let mut smaller = vec![0u8; 15];
    assert_eq!(
        initialize_extra_account_meta_list_empty(&mut smaller),
        Err(HookFailure::InvalidAccountData)
    );
    assert_eq!(smaller, vec![0u8; 15]);
}

#[test]
fn used_storage_is_refused_and_left_as_it_was() {
    let mut data = blank();
    initialize_extra_account_meta_list_empty(&mut data).unwrap();
    let stored = data.clone();
    assert_eq!(
        initialize_extra_account_meta_list(&mut data),
        Err(HookFailure::InvalidAccountData)
    );
    assert_eq!(data, stored);
    assert_eq!(
        store_extra_accounts(&mut data, &Vec::new()),
        Err(HookFailure::InvalidAccountData)
    );
    assert_eq!(data, stored);
}

#[test]
fn a_list_with_an_account_that_cannot_be_packed_is_not_stored() {
    let mut data = blank();
    assert_eq!(
        store_extra_accounts(&mut data, &vec![literal(33)]),
        Err(HookFailure::InvalidAccountData)
    );
    assert_eq!(data, blank());
}

#[test]
fn upgrade_replaces_the_empty_list_by_the_list_in_force() {
    let config = initialize(who(OWNER), 200);
    let mut data = blank();
    initialize_extra_account_meta_list_empty(&mut data).unwrap();
    let stored = data.clone();
    assert_eq!(
        upgrade_extra_account_meta_list(&config, &who(STRANGER), &mut data),
        Err(HookFailure::Unauthorized)
    );
    assert_eq!(data, stored);
    assert_eq!(upgrade_extra_account_meta_list(&config, &who(OWNER), &mut data), Ok(()));
    assert_ne!(data, stored);
    assert_eq!(data, written_by_the_ledgers_library());
}

#[test]
fn upgrade_that_fails_leaves_the_stored_list() {
    let config = initialize(who(OWNER), 200);
    let mut short = vec![1u8; 7];
    assert_eq!(
        upgrade_extra_account_meta_list(&config, &who(OWNER), &mut short),
        Err(HookFailure::InvalidAccountData)
    );
    assert_eq!(short, vec![1u8; 7]);
    let mut tight = vec![0u8; 16];
    initialize_extra_account_meta_list_empty(&mut tight).unwrap();
    let stored = tight.clone();
    assert_eq!(
        upgrade_extra_account_meta_list(&config, &who(OWNER), &mut tight),
        Err(HookFailure::InvalidAccountData)
    );
    assert_eq!(tight, stored);
    assert_eq!(&tight[..8], &EXECUTE_DISCRIMINATOR[..]);
}

#[test]
fn what_was_written_is_kept_and_what_was_not_is_undone() {
    let mut data = vec![1u8, 2, 3];
    assert_eq!(keep_or_restore(&mut data, vec![9u8, 9], true), Ok(()));
    assert_eq!(data, vec![1u8, 2, 3]);
    assert_eq!(
        keep_or_restore(&mut data, vec![9u8, 9], false),
        Err(HookFailure::InvalidAccountData)
    );
    assert_eq!(data, vec![9u8, 9]);
}

#[test]
fn room_is_header_and_one_entry_for_each_account() {
    assert_eq!(LIST_HEADER_LEN, ExtraAccountMetaList::size_of(0).unwrap());
    assert_eq!(LIST_HEADER_LEN + LIST_ENTRY_LEN, ExtraAccountMetaList::size_of(1).unwrap());
    assert_eq!(LOCKDOWN_LIST_LEN, ExtraAccountMetaList::size_of(2).unwrap());
    assert_eq!(LIST_ENTRY_LEN, std::mem::size_of::<ExtraAccountMeta>());
    for count in 0..4usize {
        let list: Vec<ExtraAccount> = (0..count).map(|_| literal(3)).collect();
        let room = LIST_HEADER_LEN + LIST_ENTRY_LEN * count;
        let mut exact = vec![0u8; room];
        assert_eq!(store_extra_accounts(&mut exact, &list), Ok(()));
        assert_eq!(exact.len(), room);
        let mut short = vec![0u8; room - 1];
        assert_eq!(store_extra_accounts(&mut short, &list), Err(HookFailure::InvalidAccountData));
        assert_eq!(short, vec![0u8; room - 1]);
    }
}

#[test]
fn parts_are_packed_one_after_the_other_then_zeros() {
    let account = ExtraAccount {
        seeds: vec![
            SeedConfig::AccountKey { index: 9 },
            SeedConfig::Literal { bytes: vec![] },
            SeedConfig::Literal { bytes: vec![0xAA, 0xBB] },
            SeedConfig::AccountKey { index: 0 },
        ],
        is_signer: false,
        is_writable: true,
    };
    let packed = pack_extra_account(&account).unwrap();
    let mut expected = [0u8; 32];
    expected[..10].copy_from_slice(&[3, 9, 1, 0, 1, 2, 0xAA, 0xBB, 3, 0]);
    assert_eq!(packed.address_config, expected);
    assert_eq!(packed.discriminator, 1);
    let none = ExtraAccount { seeds: vec![], is_signer: false, is_writable: false };
    assert_eq!(pack_extra_account(&none).unwrap().address_config, [0u8; 32]);
    let full = ExtraAccount {
        seeds: (0..16).map(|index| SeedConfig::AccountKey { index }).collect(),
        is_signer: false,
        is_writable: false,
    };
    assert!(pack_extra_account(&full).is_some());
    let over = ExtraAccount {
        seeds: (0..17).map(|index| SeedConfig::AccountKey { index }).collect(),
        is_signer: false,
        is_writable: false,
    };
    assert!(pack_extra_account(&over).is_none());
}

fn laid_out(packed: &[PackedAccount], behind: &[u8]) -> Vec<u8> {
    let mut bytes = EXECUTE_DISCRIMINATOR.to_vec();
    bytes.extend_from_slice(&((4 + LIST_ENTRY_LEN * packed.len()) as u32).to_le_bytes());
    bytes.extend_from_slice(&(packed.len() as u32).to_le_bytes());
    for account in packed {
        bytes.push(account.discriminator);
        bytes.extend_from_slice(&account.address_config);
        bytes.push(account.is_signer as u8);
        bytes.push(account.is_writable as u8);
    }
    bytes.extend_from_slice(behind);
    bytes
}

#[test]
fn list_is_laid_out_as_tag_length_count_and_entries() {
    for count in 0..5usize {
        let list: Vec<ExtraAccount> = (0..count)
            .map(|i| ExtraAccount {
                seeds: vec![
                    SeedConfig::Literal { bytes: vec![i as u8; i + 1] },
                    SeedConfig::AccountKey { index: i as u8 },
                ],
                is_signer: i % 2 == 1,
                is_writable: i % 3 == 0,
            })
            .collect();
        let packed = pack_extra_accounts(&list).unwrap();
        let room = LIST_HEADER_LEN + LIST_ENTRY_LEN * count;
        let mut storage = vec![0xEEu8; room + 5];
        storage[..8].copy_from_slice(&[0u8; 8]);
        let before = storage.clone();
        assert_eq!(store_extra_accounts(&mut storage, &list), Ok(()));
        assert_eq!(storage, laid_out(&packed, &before[room..]));
    }
    let mut storage = blank();
    initialize_extra_account_meta_list(&mut storage).unwrap();
    let packed = pack_extra_accounts(&lockdown_account_list()).unwrap();
    assert_eq!(storage, laid_out(&packed, &[]));
}
