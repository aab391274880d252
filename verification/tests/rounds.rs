use boom::address::Address;
use boom::errors::{BoomError, ErrorClass, HookError, VrfError};
use boom::explosion::{init_presale_explosion, start_explosion_timer, trigger_presale_explosion_time};
use boom::launch::{
    create_boom_token, initialize, launch_reveal_with_digest, set_secret_cap, set_time_limit,
    trigger_explosion, trigger_time_explosion,
};
use boom::presale::{
    claim_allocation, close_presale, deposit_presale as deposit_into_presale, open_presale,
    claim_refund as refund_from_presale, PresaleStatus,
};
use boom::round::{
    claim_refund, claim_winner_tokens, create_presale_token, deposit_presale,
    end_presale_and_lottery, mark_winner, register_lp, register_presale_token, start_presale,
    TOKEN_DECIMALS,
};
use boom::sequencer::{
    auto_start_next_round, init_round_sequencer, update_round_defaults, RoundDefaults,
};
use boom::state::{
    ExplosionReason, LpInfo, PresaleExplosion, PresaleRound, PresaleToken, ProtocolConfig,
    UserDeposit,
};
use boom::vrf::{
    consume_cap_vrf, consume_cap_with_digest, consume_lottery_vrf, derive_cap_from_vrf, initialize_vrf, is_lottery_winner,
    is_winning_ticket, read_leading_u64, request_cap_vrf, request_lottery_vrf, VrfRequestStatus,
};

const DIGEST_OF_42: [u8; 32] = [
    237, 4, 145, 8, 188, 24, 242, 198, 67, 105, 232, 208, 234, 66, 133, 11, 221, 26, 125, 29, 211,
    64, 207, 222, 113, 99, 21, 87, 151, 2, 167, 108,
];

fn who(tag: u8) -> Address {
    Address::new_from_array([tag; 32])
}

fn open_round() -> PresaleRound {
    start_presale(who(9), 3, 100, 2, 10, 1000, 1_000, 255).unwrap().0
}

fn closed_round() -> PresaleRound {
    let mut r = open_round();
    let mut slot = None;
    deposit_presale(&mut r, &mut slot, &who(30), 500, 1_050, 1).unwrap();
    end_presale_and_lottery(&mut r, &who(9), &vec![0], 1_100).unwrap();
    r
}

fn open_explosion(round: &PresaleRound) -> PresaleExplosion {
    let mut slot = None;
    init_presale_explosion(round, &who(9), &mut slot, DIGEST_OF_42, 7).unwrap();
    slot.unwrap()
}

fn trading(round: &PresaleRound) -> PresaleExplosion {
    let mut e = open_explosion(round);
    let lp = LpInfo {
        round_id: 3,
        pool_id: who(20),
        lp_mint: who(21),
        vault_a: who(22),
        vault_b: who(23),
        registered_at: 1,
        bump: 1,
    };
    start_explosion_timer(&mut e, &lp, 3600, 1_200).unwrap();
    e
}

fn deposit_of(tag: u8, amount: u64) -> UserDeposit {
    UserDeposit {
        depositor: who(tag),
        round_id: 3,
        amount,
        deposit_time: 1_050,
        is_winner: false,
        claimed: false,
        bump: 1,
    }
}

fn token() -> PresaleToken {
    PresaleToken { round_id: 3, mint: who(1), total_supply: 1_000_000, tokens_per_winner: 250, bump: 2 }
}

#[test]
fn round_opens_with_its_window() {
    let (r, event) = start_presale(who(9), 3, 100, 2, 10, 1000, 1_000, 255).unwrap();
    assert_eq!(
        r,
        PresaleRound {
            authority: who(9),
            round_id: 3,
            start_time: 1_000,
            end_time: 1_100,
            lottery_spots: 2,
            min_deposit: 10,
            max_deposit: 1000,
            total_deposited: 0,
            total_depositors: 0,
            is_finalized: false,
            bump: 255
        }
    );
    assert_eq!(event.end_time, 1_100);
    assert_eq!(event.round_id, 3);
    assert_eq!(start_presale(who(9), 3, 1, 2, 10, 1000, i64::MAX, 255), Err(BoomError::Overflow));
}

#[test]
fn deposits_accumulate_per_depositor() {
    let mut r = open_round();
    let mut alice = None;
    let first = deposit_presale(&mut r, &mut alice, &who(30), 400, 1_010, 5).unwrap();
    assert_eq!(first.total_amount, 400);
    assert_eq!(r.total_deposited, 400);
    assert_eq!(r.total_depositors, 1);
    let top_up = deposit_presale(&mut r, &mut alice, &who(30), 600, 1_020, 5).unwrap();
    assert_eq!(top_up.amount, 600);
    assert_eq!(top_up.total_amount, 1000);
    assert_eq!(r.total_deposited, 1000);
    assert_eq!(r.total_depositors, 1);
    assert_eq!(
        alice,
        Some(UserDeposit {
            depositor: who(30),
            round_id: 3,
            amount: 1000,
            deposit_time: 1_020,
            is_winner: false,
            claimed: false,
            bump: 5
        })
    );
    let mut bob = None;
    deposit_presale(&mut r, &mut bob, &who(31), 10, 1_099, 6).unwrap();
    assert_eq!(r.total_depositors, 2);
    assert_eq!(r.total_deposited, 1010);
}

#[test]
fn deposit_errors() {
    let mut r = open_round();
    let mut slot = None;
    assert_eq!(deposit_presale(&mut r, &mut slot, &who(30), 9, 1_010, 5), Err(BoomError::DepositTooSmall));
    assert_eq!(deposit_presale(&mut r, &mut slot, &who(30), 1001, 1_010, 5), Err(BoomError::DepositTooLarge));
    assert_eq!(deposit_presale(&mut r, &mut slot, &who(30), 500, 1_100, 5), Err(BoomError::PresaleEnded));
    assert_eq!(slot, None);
    assert_eq!(r, open_round());
    deposit_presale(&mut r, &mut slot, &who(30), 600, 1_010, 5).unwrap();
    let before = (r, slot);
    assert_eq!(deposit_presale(&mut r, &mut slot, &who(30), 401, 1_020, 5), Err(BoomError::DepositTooLarge));
    assert_eq!(deposit_presale(&mut r, &mut slot, &who(31), 100, 1_020, 5), Err(BoomError::Unauthorized));
    assert_eq!((r, slot), before);
    let mut done = closed_round();
    assert_eq!(deposit_presale(&mut done, &mut None, &who(30), 100, 1_010, 5), Err(BoomError::PresaleFinalized));
    let mut wide = open_round();
    wide.max_deposit = u64::MAX;
    wide.total_deposited = u64::MAX - 5;
    assert_eq!(deposit_presale(&mut wide, &mut None, &who(30), 10, 1_010, 5), Err(BoomError::Overflow));
    let mut held = Some(deposit_of(30, u64::MAX));
    wide.total_deposited = 0;
    assert_eq!(deposit_presale(&mut wide, &mut held, &who(30), 10, 1_010, 5), Err(BoomError::Overflow));
    let mut crowded = open_round();
    crowded.total_depositors = u32::MAX;
    assert_eq!(deposit_presale(&mut crowded, &mut None, &who(30), 10, 1_010, 5), Err(BoomError::Overflow));
}

#[test]
fn round_is_finalized_once_after_its_window() {
    let mut r = open_round();
    assert_eq!(end_presale_and_lottery(&mut r, &who(9), &vec![0], 1_099), Err(BoomError::PresaleNotEnded));
    assert_eq!(end_presale_and_lottery(&mut r, &who(8), &vec![0], 1_100), Err(BoomError::Unauthorized));
    assert_eq!(end_presale_and_lottery(&mut r, &who(9), &vec![0, 1, 2], 1_100), Err(BoomError::TooManyWinners));
    assert_eq!(r, open_round());
    let event = end_presale_and_lottery(&mut r, &who(9), &vec![4, 1], 1_100).unwrap();
    assert_eq!(event.winners_count, 2);
    assert_eq!(event.round_id, 3);
    assert!(r.is_finalized);
    assert_eq!(end_presale_and_lottery(&mut r, &who(9), &vec![], 1_200), Err(BoomError::PresaleFinalized));
}

#[test]
fn winners_are_marked_once_by_the_authority() {
    let r = closed_round();
    let mut d = deposit_of(30, 500);
    assert_eq!(mark_winner(&r, &who(8), &mut d), Err(BoomError::Unauthorized));
    assert_eq!(mark_winner(&open_round(), &who(9), &mut d), Err(BoomError::PresaleNotFinalized));
    let event = mark_winner(&r, &who(9), &mut d).unwrap();
    assert_eq!(event.winner, who(30));
    assert_eq!(event.amount, 500);
    assert!(d.is_winner);
    assert_eq!(mark_winner(&r, &who(9), &mut d), Err(BoomError::AlreadyWinner));
    let mut foreign = deposit_of(30, 500);
    foreign.round_id = 4;
    assert_eq!(mark_winner(&r, &who(9), &mut foreign), Err(BoomError::RoundMismatch));
}

#[test]
fn refund_goes_to_those_who_did_not_win_once_trading_started() {
    let r = closed_round();
    let e = trading(&r);
    let mut d = deposit_of(30, 500);
    let idle = open_explosion(&r);
    assert_eq!(claim_refund(&r, &idle, &mut d, &who(30)), Err(BoomError::TradingNotStarted));
    assert_eq!(claim_refund(&r, &e, &mut d, &who(31)), Err(BoomError::Unauthorized));
    assert_eq!(claim_refund(&open_round(), &e, &mut d, &who(30)), Err(BoomError::PresaleNotFinalized));
    assert_eq!(d, deposit_of(30, 500));
    let event = claim_refund(&r, &e, &mut d, &who(30)).unwrap();
    assert_eq!(event.amount, 500);
    assert_eq!(event.depositor, who(30));
    assert!(d.claimed);
    assert_eq!(claim_refund(&r, &e, &mut d, &who(30)), Err(BoomError::AlreadyClaimed));
    let mut winner = deposit_of(30, 500);
    winner.is_winner = true;
    assert_eq!(claim_refund(&r, &e, &mut winner, &who(30)), Err(BoomError::WinnerCannotRefund));
    let mut empty = deposit_of(30, 0);
    assert_eq!(claim_refund(&r, &e, &mut empty, &who(30)), Err(BoomError::NothingToRefund));
}

#[test]
fn a_deposit_is_refunded_or_claimed_never_both() {
    let r = closed_round();
    let e = trading(&r);
    let mut refunded = deposit_of(30, 500);
    claim_refund(&r, &e, &mut refunded, &who(30)).unwrap();
    mark_winner(&r, &who(9), &mut refunded).unwrap();
    assert_eq!(
        claim_winner_tokens(&r, &token(), &e, &mut refunded, &who(30), &who(1)),
        Err(BoomError::AlreadyClaimed)
    );
    let mut won = deposit_of(31, 500);
    mark_winner(&r, &who(9), &mut won).unwrap();
    let event = claim_winner_tokens(&r, &token(), &e, &mut won, &who(31), &who(1)).unwrap();
    assert_eq!(event.tokens_minted, 250);
    assert_eq!(event.deposit_amount, 500);
    assert_eq!(event.winner, who(31));
    assert!(won.claimed);
    assert_eq!(claim_refund(&r, &e, &mut won, &who(31)), Err(BoomError::AlreadyClaimed));
    assert_eq!(
        claim_winner_tokens(&r, &token(), &e, &mut won, &who(31), &who(1)),
        Err(BoomError::AlreadyClaimed)
    );
    assert_eq!(BoomError::AlreadyClaimed.class(), ErrorClass::State);
}

#[test]
fn winner_claim_errors() {
    let r = closed_round();
    let e = trading(&r);
    let mut d = deposit_of(30, 500);
    assert_eq!(claim_winner_tokens(&r, &token(), &e, &mut d, &who(30), &who(1)), Err(BoomError::NotAWinner));
    d.is_winner = true;
    assert_eq!(claim_winner_tokens(&r, &token(), &e, &mut d, &who(31), &who(1)), Err(BoomError::NotAWinner));
    assert_eq!(claim_winner_tokens(&r, &token(), &e, &mut d, &who(30), &who(2)), Err(BoomError::InvalidMint));
    let idle = open_explosion(&r);
    assert_eq!(
        claim_winner_tokens(&r, &token(), &idle, &mut d, &who(30), &who(1)),
        Err(BoomError::TradingNotStarted)
    );
    let other = PresaleToken { round_id: 4, ..token() };
    assert_eq!(claim_winner_tokens(&r, &other, &e, &mut d, &who(30), &who(1)), Err(BoomError::RoundMismatch));
    assert!(!d.claimed);
}

#[test]
fn round_asset_and_venue_are_recorded_by_the_authority() {
    let r = closed_round();
    assert_eq!(TOKEN_DECIMALS, 9);
    let (t, event) = create_presale_token(&r, &who(9), who(1), 1_000_000, 250, 2).unwrap();
    assert_eq!(t, token());
    assert_eq!(event.total_supply, 1_000_000);
    assert_eq!(register_presale_token(&r, &who(9), who(1), 1_000_000, 250, 2), Ok((t, event)));
    assert_eq!(create_presale_token(&r, &who(8), who(1), 1, 1, 2), Err(BoomError::Unauthorized));
    assert_eq!(
        register_presale_token(&open_round(), &who(9), who(1), 1, 1, 2),
        Err(BoomError::PresaleNotFinalized)
    );
    let (lp, registered) = register_lp(&r, &who(9), who(20), who(21), who(22), who(23), 77, 4).unwrap();
    assert_eq!(
        lp,
        LpInfo {
            round_id: 3,
            pool_id: who(20),
            lp_mint: who(21),
            vault_a: who(22),
            vault_b: who(23),
            registered_at: 77,
            bump: 4
        }
    );
    assert_eq!(registered.pool_id, who(20));
    assert_eq!(register_lp(&r, &who(8), who(20), who(21), who(22), who(23), 77, 4), Err(BoomError::Unauthorized));
    assert_eq!(
        register_lp(&open_round(), &who(9), who(20), who(21), who(22), who(23), 77, 4),
        Err(BoomError::PresaleNotFinalized)
    );
}

#[test]
fn sequencer_opens_the_next_round_after_a_detonation() {
    let mut s = init_round_sequencer(who(9), 100, 2, 10, 1000, 8);
    assert_eq!(s.current_round, 0);
    assert!(s.auto_advance_enabled);
    let r = closed_round();
    let mut e = trading(&r);
    let mut slot = None;
    assert_eq!(auto_start_next_round(&mut s, &e, &mut slot, 4, 9_000, 1), Err(BoomError::NotExploded));
    trigger_presale_explosion_time(&mut e, 5_000).unwrap();
    for wrong in [0u64, 3, 5, u64::MAX] {
        assert_eq!(
            auto_start_next_round(&mut s, &e, &mut slot, wrong, 9_000, 1),
            Err(BoomError::InvalidRoundSequence)
        );
    }
    assert_eq!(auto_start_next_round(&mut s, &e, &mut slot, 4, i64::MAX, 1), Err(BoomError::Overflow));
    assert_eq!(s, init_round_sequencer(who(9), 100, 2, 10, 1000, 8));
    assert_eq!(slot, None);
    let (advanced, started) = auto_start_next_round(&mut s, &e, &mut slot, 4, 9_000, 1).unwrap();
    let next = slot.unwrap();
    assert_eq!(next.round_id, 4);
    assert_eq!(next.authority, who(9));
    assert_eq!(next.start_time, 9_000);
    assert_eq!(next.end_time, 9_100);
    assert_eq!((next.lottery_spots, next.min_deposit, next.max_deposit), (2, 10, 1000));
    assert_eq!((next.total_deposited, next.total_depositors), (0, 0));
    assert!(!next.is_finalized);
    assert_eq!(advanced.previous_round, 3);
    assert_eq!(advanced.new_round, 4);
    assert!(advanced.auto_advanced);
    assert_eq!(started.end_time, 9_100);
    assert_eq!(s.current_round, 4);
    assert_eq!(s.last_explosion_round, 3);
    let mut last = e;
    last.round_id = u64::MAX;
    let mut none = None;
    assert_eq!(auto_start_next_round(&mut s, &last, &mut none, 0, 9_000, 1), Err(BoomError::Overflow));
}

#[test]
fn a_round_is_opened_once_in_its_slot() {
    let mut s = init_round_sequencer(who(9), 100, 2, 10, 1000, 8);
    let mut e = trading(&closed_round());
    trigger_presale_explosion_time(&mut e, 5_000).unwrap();
    let mut slot = None;
    auto_start_next_round(&mut s, &e, &mut slot, 4, 9_000, 1).unwrap();
    let (opened, round) = (s, slot);
    assert_eq!(
        auto_start_next_round(&mut s, &e, &mut slot, 4, 9_500, 1),
        Err(BoomError::RoundAlreadyStarted)
    );
    assert_eq!(
        auto_start_next_round(&mut s, &e, &mut slot, 7, 9_500, 1),
        Err(BoomError::RoundAlreadyStarted)
    );
    assert_eq!((s, slot), (opened, round));
    assert_eq!(BoomError::RoundAlreadyStarted.class(), ErrorClass::State);
    assert_eq!(BoomError::RoundAlreadyStarted.message(), "Round has already been started");
}

#[test]
fn a_round_behind_the_last_one_is_still_opened() {
    let mut s = init_round_sequencer(who(9), 100, 2, 10, 1000, 8);
    let mut e = trading(&closed_round());
    trigger_presale_explosion_time(&mut e, 5_000).unwrap();
    let mut fifth = e;
    fifth.round_id = 4;
    let mut slot = None;
    auto_start_next_round(&mut s, &fifth, &mut slot, 5, 9_000, 1).unwrap();
    assert_eq!(s.current_round, 5);
    let mut second = e;
    second.round_id = 2;
    let mut behind = None;
    let (advanced, _) = auto_start_next_round(&mut s, &second, &mut behind, 3, 9_500, 1).unwrap();
    assert_eq!(advanced.new_round, 3);
    assert_eq!(behind.unwrap().round_id, 3);
    assert_eq!(s.current_round, 3);
    assert_eq!(s.last_explosion_round, 2);
}

#[test]
fn sequencer_defaults_are_changed_by_the_authority() {
    let mut s = init_round_sequencer(who(9), 100, 2, 10, 1000, 8);
    let changes = RoundDefaults {
        default_cooldown: Some(50),
        default_lottery_spots: None,
        default_min_deposit: Some(20),
        default_max_deposit: None,
        auto_advance_enabled: Some(false),
    };
    assert_eq!(update_round_defaults(&mut s, &who(8), changes), Err(BoomError::Unauthorized));
    assert_eq!(s, init_round_sequencer(who(9), 100, 2, 10, 1000, 8));
    let event = update_round_defaults(&mut s, &who(9), changes).unwrap();
    assert_eq!(event.current_round, 0);
    assert_eq!(s.default_cooldown, 50);
    assert_eq!(s.default_lottery_spots, 2);
    assert_eq!(s.default_min_deposit, 20);
    assert_eq!(s.default_max_deposit, 1000);
    assert!(!s.auto_advance_enabled);
    let mut e = trading(&closed_round());
    trigger_presale_explosion_time(&mut e, 5_000).unwrap();
    let mut slot = None;
    assert_eq!(
        auto_start_next_round(&mut s, &e, &mut slot, 4, 9_000, 1),
        Err(BoomError::AutoAdvanceDisabled)
    );
}

#[test]
fn launch_commitment_is_set_once() {
    let mut protocol = initialize(who(9), who(10), ProtocolConfig { min_cap: 1000, max_cap: 5000, fee_bps: 30 }, 1);
    assert_eq!((protocol.min_cap, protocol.max_cap, protocol.fee_bps), (1000, 5000, 30));
    assert_eq!(protocol.total_launches, 0);
    let mut t = create_boom_token(&mut protocol, who(1), who(30), [65; 32], [66; 8], 500, 2).unwrap();
    assert_eq!(protocol.total_launches, 1);
    assert_eq!(t.cap_hash, [0; 32]);
    assert_eq!(t.created_at, 500);
    assert_eq!(t.creator, who(30));
    assert_eq!(t.explosion_reason, ExplosionReason::Unexploded);
    assert_eq!(set_secret_cap(&mut t, [0; 32]), Err(BoomError::EmptyCommitment));
    assert_eq!(t.cap_hash, [0; 32]);
    assert_eq!(BoomError::EmptyCommitment.class(), ErrorClass::Validation);
    assert_eq!(set_secret_cap(&mut t, DIGEST_OF_42), Ok(()));
    assert_eq!(t.cap_hash, DIGEST_OF_42);
    assert_eq!(set_secret_cap(&mut t, [5; 32]), Err(BoomError::CapAlreadySet));
    assert_eq!(set_secret_cap(&mut t, [0; 32]), Err(BoomError::CapAlreadySet));
    assert_eq!(set_secret_cap(&mut t, DIGEST_OF_42), Err(BoomError::CapAlreadySet));
    assert_eq!(t.cap_hash, DIGEST_OF_42);
    assert_eq!(BoomError::CapAlreadySet.class(), ErrorClass::State);
    protocol.total_launches = u64::MAX;
    assert_eq!(
        create_boom_token(&mut protocol, who(1), who(30), [65; 32], [66; 8], 500, 2),
        Err(BoomError::Overflow)
    );
}

#[test]
fn launch_detonates_once_by_either_trigger() {
    let mut protocol = initialize(who(9), who(10), ProtocolConfig { min_cap: 1000, max_cap: 5000, fee_bps: 30 }, 1);
    let mut t = create_boom_token(&mut protocol, who(1), who(30), [65; 32], [66; 8], 500, 2).unwrap();
    assert_eq!(
        launch_reveal_with_digest(&mut t, &mut protocol, 42, &[0; 32], 600),
        Err(BoomError::InvalidCapReveal)
    );
    assert!(!t.is_exploded);
    set_secret_cap(&mut t, DIGEST_OF_42).unwrap();
    assert_eq!(set_time_limit(&mut t, 500, 500), Err(BoomError::DeadlineInPast));
    assert_eq!(set_time_limit(&mut t, 0, -500), Err(BoomError::DeadlineInPast));
    assert_eq!(set_time_limit(&mut t, -100, -500), Err(BoomError::DeadlineInPast));
    assert_eq!(t.explosion_deadline, 0);
    assert_eq!(BoomError::DeadlineInPast.class(), ErrorClass::Validation);
    assert_eq!(trigger_time_explosion(&mut t, &mut protocol, 900), Err(BoomError::NoDeadlineSet));
    let set = set_time_limit(&mut t, 1000, 500).unwrap();
    assert_eq!(set.deadline, 1000);
    assert_eq!(set_time_limit(&mut t, 2000, 500), Err(BoomError::DeadlineAlreadySet));
    assert_eq!(trigger_time_explosion(&mut t, &mut protocol, 999), Err(BoomError::DeadlineNotReached));
    assert_eq!(trigger_explosion(&mut t, &mut protocol, 41, 600), Err(BoomError::InvalidCapReveal));
    assert_eq!(protocol.total_explosions, 0);
    let mut by_time = t;
    let mut counted = protocol;
    let timed = trigger_time_explosion(&mut by_time, &mut counted, 1000).unwrap();
    assert_eq!(timed.reason, ExplosionReason::TimeLimit);
    assert_eq!(timed.revealed_cap, None);
    assert_eq!(counted.total_explosions, 1);
    assert_eq!(trigger_explosion(&mut by_time, &mut counted, 42, 1001), Err(BoomError::AlreadyExploded));
    assert_eq!(counted.total_explosions, 1);
    let event = trigger_explosion(&mut t, &mut protocol, 42, 600).unwrap();
    assert_eq!(event.reason, ExplosionReason::CapHit);
    assert_eq!(event.revealed_cap, Some(42));
    assert_eq!(event.explosion_time, 600);
    assert_eq!(event.mint, who(1));
    assert!(t.is_exploded);
    assert_eq!(t.revealed_cap, 42);
    assert_eq!(protocol.total_explosions, 1);
    assert_eq!(trigger_time_explosion(&mut t, &mut protocol, 5000), Err(BoomError::AlreadyExploded));
    assert_eq!(set_secret_cap(&mut t, [1; 32]), Err(BoomError::AlreadyExploded));
    assert_eq!(set_time_limit(&mut t, 9000, 700), Err(BoomError::AlreadyExploded));
    let mut full = initialize(who(9), who(10), ProtocolConfig { min_cap: 1, max_cap: 2, fee_bps: 0 }, 1);
    let mut u = create_boom_token(&mut full, who(1), who(30), [65; 32], [66; 8], 500, 2).unwrap();
    set_secret_cap(&mut u, DIGEST_OF_42).unwrap();
    full.total_explosions = u64::MAX;
    assert_eq!(launch_reveal_with_digest(&mut u, &mut full, 42, &DIGEST_OF_42, 600), Err(BoomError::Overflow));
    assert!(!u.is_exploded);
}

#[test]
fn presale_runs_from_open_to_refund() {
    let protocol = initialize(who(9), who(10), ProtocolConfig { min_cap: 1000, max_cap: 5000, fee_bps: 30 }, 1);
    let (mut p, opened) = open_presale(&protocol, who(11), 100, 2, 50, 1_000, 3).unwrap();
    assert_eq!(p.round, 1);
    assert_eq!(p.closes_at, 1_100);
    assert_eq!(p.status, PresaleStatus::Open);
    assert_eq!(opened.winner_allocation, 50);
    let (mut first, e1) = deposit_into_presale(&mut p, who(12), who(30), 70, 1_010, 1).unwrap();
    let (mut second, e2) = deposit_into_presale(&mut p, who(12), who(31), 30, 1_020, 1).unwrap();
    assert_eq!((first.position, second.position), (0, 1));
    assert_eq!((e1.total_deposited, e2.total_deposited), (70, 100));
    assert_eq!(p.depositor_count, 2);
    assert_eq!(deposit_into_presale(&mut p, who(12), who(32), 30, 1_100, 1), Err(BoomError::PresaleClosed));
    assert_eq!(close_presale(&mut p, 1_099), Err(BoomError::PresaleNotEnded));
    let closed = close_presale(&mut p, 1_100).unwrap();
    assert_eq!(closed.total_deposited, 100);
    assert_eq!(p.status, PresaleStatus::Closed);
    assert_eq!(close_presale(&mut p, 1_200), Err(BoomError::PresaleNotOpen));
    assert_eq!(deposit_into_presale(&mut p, who(12), who(32), 30, 1_050, 1), Err(BoomError::PresaleNotOpen));
    assert_eq!(claim_allocation(&p, &who(12), &mut first, &who(30)), Err(BoomError::LotteryNotComplete));
    assert_eq!(refund_from_presale(&p, &who(12), &mut second, &who(31)), Err(BoomError::PresaleNotFinalized));
    p.status = PresaleStatus::LotteryComplete;
    assert_eq!(claim_allocation(&p, &who(12), &mut first, &who(30)), Err(BoomError::NotWinner));
    first.is_winner = true;
    assert_eq!(claim_allocation(&p, &who(12), &mut first, &who(31)), Err(BoomError::Unauthorized));
    let claimed = claim_allocation(&p, &who(12), &mut first, &who(30)).unwrap();
    assert_eq!(claimed.allocation, 50);
    assert_eq!(claim_allocation(&p, &who(12), &mut first, &who(30)), Err(BoomError::AlreadyClaimed));
    p.status = PresaleStatus::Finalized;
    assert_eq!(refund_from_presale(&p, &who(12), &mut first, &who(30)), Err(BoomError::AlreadyClaimed));
    let refund = refund_from_presale(&p, &who(12), &mut second, &who(31)).unwrap();
    assert_eq!(refund.amount, 30);
    assert_eq!(refund_from_presale(&p, &who(12), &mut second, &who(31)), Err(BoomError::AlreadyClaimed));
    let mut lucky = second;
    lucky.claimed_refund = false;
    lucky.is_winner = true;
    assert_eq!(refund_from_presale(&p, &who(12), &mut lucky, &who(31)), Err(BoomError::WinnerCannotRefund));
    let mut crowded = p;
    crowded.status = PresaleStatus::Open;
    crowded.total_deposited = u64::MAX;
    assert_eq!(deposit_into_presale(&mut crowded, who(12), who(32), 1, 1_050, 1), Err(BoomError::Overflow));
    let mut late = protocol;
    late.total_launches = u64::MAX;
    assert_eq!(open_presale(&late, who(11), 100, 2, 50, 1_000, 3), Err(BoomError::Overflow));
}

#[test]
fn threshold_is_derived_within_the_bounds() {
    assert_eq!(derive_cap_from_vrf([7; 32], 1000, 5000), Ok(1711));
    assert_eq!(derive_cap_from_vrf([0; 32], 1000, 5000), Ok(1000));
    assert_eq!(derive_cap_from_vrf([7; 32], 5000, 5000), Err(BoomError::Overflow));
    assert_eq!(derive_cap_from_vrf([7; 32], 5001, 5000), Err(BoomError::Overflow));
    let mut bytes = [0u8; 32];
    bytes[0] = 1;
    bytes[1] = 2;
    bytes[8] = 9;
    assert_eq!(read_leading_u64(&bytes), 513);
}

#[test]
fn lottery_draws_by_ticket() {
    let mut seed = [0u8; 32];
    for i in 0..32 {
        seed[i] = i as u8;
    }
    let drawn: Vec<bool> = (0..6).map(|position| is_lottery_winner(seed, position, 5, 2)).collect();
    assert_eq!(drawn, vec![true, true, false, true, true, false]);
    assert!(!is_lottery_winner(seed, 0, 0, 2));
    assert!(!is_lottery_winner(seed, 0, 5, 0));
    assert!(is_lottery_winner(seed, 2, 5, 5));
    assert!(is_lottery_winner(seed, 2, 5, 6));
    let mut low = [0u8; 32];
    assert!(is_winning_ticket(&low, 5, 2));
    low[7] = 0x66;
    low[0..7].copy_from_slice(&[0x65, 0x66, 0x66, 0x66, 0x66, 0x66, 0x66]);
    assert!(is_winning_ticket(&low, 5, 2));
    low[0] = 0x66;
    assert!(!is_winning_ticket(&low, 5, 2));
    assert!(!is_winning_ticket(&[255; 32], 5, 2));
}

#[test]
fn threshold_request_and_answer() {
    let mut protocol = initialize(who(9), who(10), ProtocolConfig { min_cap: 1000, max_cap: 5000, fee_bps: 30 }, 1);
    let mut t = create_boom_token(&mut protocol, who(1), who(30), [65; 32], [66; 8], 500, 2).unwrap();
    let (client, ready) = initialize_vrf(who(11), who(40), who(41), who(42), 3);
    assert_eq!(client.request_count, 0);
    assert_eq!(ready.vrf, who(40));
    assert_eq!(request_cap_vrf(&t, who(13), &client, who(43), 600, 4), Err(BoomError::Unauthorized));
    let (mut request, asked) = request_cap_vrf(&t, who(13), &client, who(40), 600, 4).unwrap();
    assert_eq!(request.status, VrfRequestStatus::Pending);
    assert_eq!(request.result, [0; 32]);
    assert_eq!(asked.requested_at, 600);
    assert_eq!(consume_cap_vrf(&mut request, &mut t, who(13), &protocol, &who(40), [0; 32]), Err(BoomError::Unauthorized));
    assert_eq!(consume_cap_vrf(&mut request, &mut t, who(13), &protocol, &who(43), [7; 32]), Err(BoomError::Unauthorized));
    assert_eq!(t.cap_hash, [0; 32]);
    let event = consume_cap_vrf(&mut request, &mut t, who(13), &protocol, &who(40), [7; 32]).unwrap();
    assert_eq!(derive_cap_from_vrf([7; 32], 1000, 5000), Ok(1711));
    assert_eq!(request.derived_cap, 0);
    assert_eq!(request.status, VrfRequestStatus::Fulfilled);
    assert_eq!(request.result, [7; 32]);
    assert_eq!(t.cap_hash, boom::digest::commit_cap(1711));
    assert_eq!(
        t.cap_hash,
        [
            143, 48, 224, 120, 9, 249, 53, 140, 42, 110, 156, 63, 108, 246, 20, 168, 56, 164, 238,
            154, 70, 49, 151, 63, 100, 168, 132, 222, 145, 68, 123, 254
        ]
    );
    assert_eq!(event.cap_hash, t.cap_hash);
    assert_eq!(consume_cap_vrf(&mut request, &mut t, who(13), &protocol, &who(40), [8; 32]), Err(BoomError::CapAlreadySet));
    assert_eq!(request_cap_vrf(&t, who(13), &client, who(40), 700, 4), Err(BoomError::CapAlreadySet));
    assert!(trigger_explosion(&mut t, &mut protocol, 1711, 800).is_ok());
}

#[test]
fn threshold_answer_stores_the_digest_it_is_given() {
    let mut protocol =
        initialize(who(9), who(10), ProtocolConfig { min_cap: 1000, max_cap: 5000, fee_bps: 30 }, 1);
    let mut t =
        create_boom_token(&mut protocol, who(1), who(30), [65; 32], [66; 8], 500, 2).unwrap();
    let (client, _) = initialize_vrf(who(11), who(40), who(41), who(42), 3);
    let (mut request, _) = request_cap_vrf(&t, who(13), &client, who(40), 600, 4).unwrap();
    let untouched = (request, t);
    assert_eq!(
        consume_cap_with_digest(&mut request, &mut t, who(14), &protocol, &who(40), [7; 32], [5; 32]),
        Err(BoomError::Unauthorized)
    );
    assert_eq!((request, t), untouched);
    let flat = boom::state::Protocol { max_cap: 1000, ..protocol };
    assert_eq!(
        consume_cap_with_digest(&mut request, &mut t, who(13), &flat, &who(40), [7; 32], [5; 32]),
        Err(BoomError::Overflow)
    );
    assert_eq!((request, t), untouched);
    let event =
        consume_cap_with_digest(&mut request, &mut t, who(13), &protocol, &who(40), [7; 32], [5; 32])
            .unwrap();
    assert_eq!(event.boom_token, who(13));
    assert_eq!(event.cap_hash, [5; 32]);
    assert_eq!(t.cap_hash, [5; 32]);
    assert_eq!(request.derived_cap, 0);
    assert_eq!(request.result, [7; 32]);
    assert_eq!(request.status, VrfRequestStatus::Fulfilled);
}

#[test]
fn threshold_answer_never_replaces_a_commitment() {
    let mut protocol =
        initialize(who(9), who(10), ProtocolConfig { min_cap: 1000, max_cap: 5000, fee_bps: 30 }, 1);
    let mut t =
        create_boom_token(&mut protocol, who(1), who(30), [65; 32], [66; 8], 500, 2).unwrap();
    let (client, _) = initialize_vrf(who(11), who(40), who(41), who(42), 3);
    let (mut request, _) = request_cap_vrf(&t, who(13), &client, who(40), 600, 4).unwrap();
    assert_eq!(
        consume_cap_with_digest(&mut request, &mut t, who(13), &protocol, &who(40), [7; 32], [0; 32]),
        Err(BoomError::EmptyCommitment)
    );
    assert_eq!(request.status, VrfRequestStatus::Pending);
    set_secret_cap(&mut t, DIGEST_OF_42).unwrap();
    let untouched = (request, t);
    assert_eq!(
        consume_cap_vrf(&mut request, &mut t, who(13), &protocol, &who(40), [7; 32]),
        Err(BoomError::CapAlreadySet)
    );
    assert_eq!(
        consume_cap_with_digest(&mut request, &mut t, who(13), &protocol, &who(40), [7; 32], [5; 32]),
        Err(BoomError::CapAlreadySet)
    );
    assert_eq!((request, t), untouched);
    assert_eq!(t.cap_hash, DIGEST_OF_42);
    trigger_explosion(&mut t, &mut protocol, 42, 700).unwrap();
    assert_eq!(
        consume_cap_vrf(&mut request, &mut t, who(13), &protocol, &who(40), [7; 32]),
        Err(BoomError::AlreadyExploded)
    );
    assert_eq!(request_cap_vrf(&t, who(13), &client, who(40), 800, 4), Err(BoomError::AlreadyExploded));
    let mut live =
        create_boom_token(&mut protocol, who(2), who(30), [65; 32], [66; 8], 500, 2).unwrap();
    set_time_limit(&mut live, 1000, 500).unwrap();
    trigger_time_explosion(&mut live, &mut protocol, 1000).unwrap();
    assert_eq!(request_cap_vrf(&live, who(14), &client, who(40), 1100, 4), Err(BoomError::AlreadyExploded));
}

#[test]
fn lottery_request_and_answer() {
    let protocol = initialize(who(9), who(10), ProtocolConfig { min_cap: 1000, max_cap: 5000, fee_bps: 30 }, 1);
    let (mut p, _) = open_presale(&protocol, who(11), 100, 2, 50, 1_000, 3).unwrap();
    let (client, _) = initialize_vrf(who(11), who(40), who(41), who(42), 3);
    assert_eq!(request_lottery_vrf(&p, who(12), &client, who(40), 1_200, 4), Err(BoomError::PresaleNotClosed));
    close_presale(&mut p, 1_100).unwrap();
    assert_eq!(request_lottery_vrf(&p, who(12), &client, who(43), 1_200, 4), Err(BoomError::Unauthorized));
    let (mut request, _) = request_lottery_vrf(&p, who(12), &client, who(40), 1_200, 4).unwrap();
    assert_eq!(consume_lottery_vrf(&mut request, &mut p, who(12), &who(40), [0; 32]), Err(BoomError::Unauthorized));
    assert_eq!(p.status, PresaleStatus::Closed);
    let (mut second, _) = request_lottery_vrf(&p, who(12), &client, who(40), 1_300, 4).unwrap();
    let event = consume_lottery_vrf(&mut request, &mut p, who(12), &who(40), [3; 32]).unwrap();
    assert_eq!(event.lottery_seed, [3; 32]);
    assert_eq!(p.lottery_seed, [3; 32]);
    assert_eq!(
        consume_lottery_vrf(&mut second, &mut p, who(12), &who(40), [4; 32]),
        Err(BoomError::PresaleNotClosed)
    );
    assert_eq!(p.lottery_seed, [3; 32]);
    assert_eq!(second.status, VrfRequestStatus::Pending);
    assert_eq!(p.status, PresaleStatus::LotteryComplete);
    assert_eq!(request.status, VrfRequestStatus::Fulfilled);
    assert_eq!(
        consume_lottery_vrf(&mut request, &mut p, who(12), &who(40), [4; 32]),
        Err(BoomError::PresaleNotClosed)
    );
    let mut closed = p;
    closed.status = PresaleStatus::Closed;
    assert_eq!(
        consume_lottery_vrf(&mut request, &mut closed, who(12), &who(40), [4; 32]),
        Err(BoomError::Unauthorized)
    );
}

#[test]
fn messages_and_classes() {
    assert_eq!(BoomError::AlreadyExploded.message(), "Token has already exploded");
    assert_eq!(BoomError::EmptyCommitment.message(), "Commitment digest is empty");
    assert_eq!(BoomError::PoolAlreadyCreated.message(), "Pool has already been created");
    assert_eq!(BoomError::PoolAlreadyCreated.class(), ErrorClass::State);
    assert_eq!(BoomError::FeeTooHigh.message(), "Fee too high - max 10%");
    assert_eq!(BoomError::ZeroAmount.message(), "Amount must be greater than zero");
    assert_eq!(HookError::TransfersDisabled.message(), "All transfers are currently disabled by protocol");
    assert_eq!(
        HookError::TransferToPoolBlocked.message(),
        "Transfer to non-whitelisted pool is blocked. Only official LP allowed."
    );
    assert_eq!(HookError::TradingNotEnabled.message(), "Trading not enabled yet - LP must be whitelisted first");
    assert_eq!(VrfError::VrfTimeout.message(), "VRF request timeout");
    assert_eq!(VrfError::VrfNotFulfilled.message(), "VRF result not yet available");
    assert_eq!(VrfError::VrfAlreadyFulfilled.message(), "VRF request already fulfilled");
    assert_eq!(VrfError::InvalidVrfAccount.message(), "Invalid VRF account");
    assert_eq!(BoomError::NotAWinner.class(), ErrorClass::Authorization);
    assert_eq!(BoomError::RoundMismatch.class(), ErrorClass::Validation);
    assert_eq!(BoomError::NoTokensForPool.class(), ErrorClass::State);
    assert_eq!(ExplosionReason::default(), ExplosionReason::Unexploded);
}
