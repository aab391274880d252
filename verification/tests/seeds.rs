use boom::address::Address;
use boom::seeds::{record_seeds, RecordKey};
use solana_program::pubkey::Pubkey;

fn key(n: u8) -> Address {
    Address::new_from_array([n; 32])
}

fn joined(record: &RecordKey) -> Vec<u8> {
    record_seeds(record).concat()
}

fn every_kind(round_id: u64, a: Address, b: Address) -> Vec<RecordKey> {
    vec![
        RecordKey::Protocol,
        RecordKey::BoomToken { mint: a },
        RecordKey::PresaleRound { round_id },
        RecordKey::UserDeposit { round_id, depositor: a },
        RecordKey::PresaleToken { round_id },
        RecordKey::MintAuthority { round_id },
        RecordKey::LpInfo { round_id },
        RecordKey::PresaleExplosion { round_id },
        RecordKey::PayoutPool { round_id },
        RecordKey::PayoutVault { round_id },
        RecordKey::Pool { round_id },
        RecordKey::TokenVault { round_id },
        RecordKey::SolVault { round_id },
        RecordKey::RoundSequencer,
        RecordKey::Presale { protocol: a, round: round_id },
        RecordKey::PresaleDeposit { presale: a, depositor: b },
        RecordKey::VrfClient { protocol: a },
        RecordKey::VrfCapRequest { boom_token: a },
        RecordKey::VrfLotteryRequest { presale: a },
        RecordKey::HookConfig,
        RecordKey::Whitelist { mint: a },
        RecordKey::ExtraAccountMetas { mint: a },
    ]
}

#[test]
fn records_without_fields_have_their_tag_alone() {
    assert_eq!(record_seeds(&RecordKey::Protocol), vec![b"protocol".to_vec()]);
    assert_eq!(record_seeds(&RecordKey::RoundSequencer), vec![b"round_sequencer".to_vec()]);
    assert_eq!(record_seeds(&RecordKey::HookConfig), vec![b"hook_config".to_vec()]);
}

#[test]
fn round_records_are_tag_and_little_endian_round() {
    let id: u64 = 0x0102_0304_0506_0708;
    let le = vec![8u8, 7, 6, 5, 4, 3, 2, 1];
    let cases: Vec<(RecordKey, &[u8])> = vec![
        (RecordKey::PresaleRound { round_id: id }, b"presale"),
        (RecordKey::PresaleToken { round_id: id }, b"presale_token"),
        (RecordKey::MintAuthority { round_id: id }, b"mint_authority"),
        (RecordKey::LpInfo { round_id: id }, b"lp_info"),
        (RecordKey::PresaleExplosion { round_id: id }, b"presale_explosion"),
        (RecordKey::PayoutPool { round_id: id }, b"payout_pool"),
        (RecordKey::PayoutVault { round_id: id }, b"payout_vault"),
        (RecordKey::Pool { round_id: id }, b"pool"),
        (RecordKey::TokenVault { round_id: id }, b"token_vault"),
        (RecordKey::SolVault { round_id: id }, b"sol_vault"),
    ];
    for (record, tag) in cases {
        assert_eq!(record_seeds(&record), vec![tag.to_vec(), le.clone()]);
    }
}

#[test]
fn asset_records_are_tag_and_address() {
    let mint = key(7);
    let bytes = vec![7u8; 32];
    assert_eq!(
        record_seeds(&RecordKey::BoomToken { mint }),
        vec![b"boom_token".to_vec(), bytes.clone()]
    );
    assert_eq!(
        record_seeds(&RecordKey::Whitelist { mint }),
        vec![b"whitelist".to_vec(), bytes.clone()]
    );
    assert_eq!(
        record_seeds(&RecordKey::ExtraAccountMetas { mint }),
        vec![b"extra-account-metas".to_vec(), bytes.clone()]
    );
    assert_eq!(
        record_seeds(&RecordKey::VrfClient { protocol: mint }),
        vec![b"vrf_client".to_vec(), bytes.clone()]
    );
    assert_eq!(
        record_seeds(&RecordKey::VrfCapRequest { boom_token: mint }),
        vec![b"vrf_cap_request".to_vec(), bytes.clone()]
    );
    assert_eq!(
        record_seeds(&RecordKey::VrfLotteryRequest { presale: mint }),
        vec![b"vrf_lottery_request".to_vec(), bytes]
    );
}

#[test]
fn records_with_two_fields_keep_their_order() {
    assert_eq!(
        record_seeds(&RecordKey::UserDeposit { round_id: 2, depositor: key(9) }),
        vec![b"deposit".to_vec(), 2u64.to_le_bytes().to_vec(), vec![9u8; 32]]
    );
    assert_eq!(
        record_seeds(&RecordKey::Presale { protocol: key(4), round: 3 }),
        vec![b"presale".to_vec(), vec![4u8; 32], 3u64.to_le_bytes().to_vec()]
    );
    assert_eq!(
        record_seeds(&RecordKey::PresaleDeposit { presale: key(4), depositor: key(5) }),
        vec![b"deposit".to_vec(), vec![4u8; 32], vec![5u8; 32]]
    );
}

#[test]
fn no_two_kinds_hash_the_same_string() {
    let records = every_kind(1, key(1), key(2));
    for (i, a) in records.iter().enumerate() {
        for (j, b) in records.iter().enumerate() {
            assert_eq!(joined(a) == joined(b), i == j, "{:?} and {:?}", a, b);
        }
    }
}

#[test]
fn records_of_one_kind_differ_with_their_fields() {
    assert_ne!(
        joined(&RecordKey::Pool { round_id: 1 }),
        joined(&RecordKey::Pool { round_id: 256 })
    );
    assert_ne!(
        joined(&RecordKey::UserDeposit { round_id: 1, depositor: key(1) }),
        joined(&RecordKey::UserDeposit { round_id: 1, depositor: key(2) })
    );
    assert_ne!(
        joined(&RecordKey::PresaleDeposit { presale: key(1), depositor: key(2) }),
        joined(&RecordKey::PresaleDeposit { presale: key(2), depositor: key(1) })
    );
}

#[test]
fn the_ledger_derives_distinct_and_stable_addresses() {
    let program = Pubkey::new_from_array([42u8; 32]);
    let derive = |record: &RecordKey| {
        let seeds = record_seeds(record);
        let parts: Vec<&[u8]> = seeds.iter().map(|s| s.as_slice()).collect();
        Pubkey::find_program_address(&parts, &program).0
    };
    let pool = derive(&RecordKey::Pool { round_id: 5 });
    assert_eq!(pool, derive(&RecordKey::Pool { round_id: 5 }));
    assert_eq!(
        pool,
        Pubkey::find_program_address(&[b"pool", 5u64.to_le_bytes().as_ref()], &program).0
    );
    assert_ne!(pool, derive(&RecordKey::Pool { round_id: 6 }));
    assert_ne!(pool, derive(&RecordKey::TokenVault { round_id: 5 }));
    assert_ne!(
        derive(&RecordKey::PayoutPool { round_id: 5 }),
        derive(&RecordKey::TokenVault { round_id: 5 })
    );
}
