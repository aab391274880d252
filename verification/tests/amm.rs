use boom::address::Address;
use boom::amm::{
    create_pool, deposit_pool_tokens, get_swap_quote, price_swap, swap, swap_atomic_buy,
    swap_atomic_sell, sync_pool_reserves, PoolKeys,
};
use boom::errors::{BoomError, ErrorClass};
use boom::events::PoolCreated;
use boom::math::{
    compute_fee_amount, compute_ideal_output, compute_payout_share, compute_price_impact_bps,
    compute_swap_output,
};
use boom::state::{Pool, PresaleRound, PresaleToken};

fn addr(tag: u8) -> Address {
    Address::new_from_array([tag; 32])
}

fn pool(sol: u64, tokens: u64, fee_bps: u16) -> Pool {
    Pool {
        round_id: 7,
        mint: addr(1),
        token_vault: addr(2),
        sol_vault: addr(3),
        sol_reserve: sol,
        token_reserve: tokens,
        fee_bps,
        total_volume: 0,
        total_fees: 0,
        bump: 254,
        token_vault_bump: 253,
        sol_vault_bump: 252,
    }
}

fn finalized_round(total_deposited: u64) -> PresaleRound {
    PresaleRound {
        authority: addr(9),
        round_id: 7,
        start_time: 100,
        end_time: 200,
        lottery_spots: 3,
        min_deposit: 10,
        max_deposit: 1000,
        total_deposited,
        total_depositors: 2,
        is_finalized: true,
        bump: 255,
    }
}

fn round_token() -> PresaleToken {
    PresaleToken { round_id: 7, mint: addr(1), total_supply: 1_000_000, tokens_per_winner: 10, bump: 1 }
}

fn keys() -> PoolKeys {
    PoolKeys {
        mint: addr(1),
        token_vault: addr(2),
        sol_vault: addr(3),
        bump: 254,
        token_vault_bump: 253,
        sol_vault_bump: 252,
    }
}

#[allow(clippy::too_many_arguments)]
fn make_pool(
    round: &PresaleRound,
    token: &PresaleToken,
    authority: &Address,
    keys: &PoolKeys,
    fee_bps: u16,
    lamports: u64,
    rent: u64,
    vault_balance: u64,
) -> Result<(Pool, PoolCreated), BoomError> {
    let mut slot = None;
    let event =
        create_pool(round, token, authority, &mut slot, keys, fee_bps, lamports, rent, vault_balance)?;
    Ok((slot.unwrap(), event))
}

#[test]
fn scenario_buy_100_against_1000_and_one_million() {
    let mut p = pool(1000, 1_000_000, 100);
    let event = swap(&mut p, &addr(1), &addr(2), &addr(5), 100, 0, true).unwrap();
    assert_eq!(event.amount_out, 90_081);
    assert_eq!(event.fee_amount, 1);
    assert_eq!(event.amount_in, 100);
    assert!(event.is_buy);
    assert_eq!(event.round_id, 7);
    assert_eq!(event.user, addr(5));
    assert_eq!(p.sol_reserve, 1100);
    assert_eq!(p.token_reserve, 1_000_000 - 90_081);
    assert_eq!(event.new_sol_reserve, 1100);
    assert_eq!(event.new_token_reserve, 909_919);
    assert_eq!(p.total_volume, 100);
    assert_eq!(p.total_fees, 1);
}

#[test]
fn swap_output_formula_exact_values() {
    assert_eq!(compute_swap_output(1000, 1_000_000, 100, 0), Ok(90_909));
    assert_eq!(compute_swap_output(1000, 1_000_000, 100, 1), Ok(90_900));
    assert_eq!(compute_swap_output(1000, 1_000_000, 100, 100), Ok(90_081));
    assert_eq!(compute_swap_output(1000, 1_000_000, 100, 500), Ok(86_757));
    assert_eq!(compute_swap_output(1000, 1_000_000, 100, 1000), Ok(82_568));
}

#[test]
fn swap_output_never_grows_with_fee() {
    let mut last = u64::MAX;
    let mut fee: u16 = 0;
    while fee <= 1000 {
        let out = compute_swap_output(1_000_000_000, 5_000_000_000_000, 10_000_000, fee).unwrap();
        assert!(out <= last);
        last = out;
        fee += 50;
    }
    assert!(
        compute_swap_output(1000, 1_000_000, 100, 1000).unwrap()
            < compute_swap_output(1000, 1_000_000, 100, 0).unwrap()
    );
}

#[test]
fn fee_step_too_small_to_show_after_rounding() {
    assert_eq!(compute_swap_output(1000, 1000, 1, 0), Ok(0));
    assert_eq!(compute_swap_output(1000, 1000, 1, 1), Ok(0));
}

#[test]
fn swap_output_overflow_and_zero_denominator() {
    assert_eq!(compute_swap_output(1, u64::MAX, u64::MAX, 0), Err(BoomError::Overflow));
    assert_eq!(compute_swap_output(0, 10, 0, 100), Err(BoomError::Overflow));
    assert_eq!(compute_swap_output(10, 10, 10, 10_001), Err(BoomError::Overflow));
    assert_eq!(compute_swap_output(0, 10, 5, 10_000), Err(BoomError::Overflow));
    assert_eq!(compute_swap_output(10, 10, 5, 10_000), Ok(0));
}

#[test]
fn buy_then_sell_returns_less_than_paid() {
    let mut p = pool(1_000_000_000, 5_000_000_000_000, 100);
    let bought = swap(&mut p, &addr(1), &addr(2), &addr(5), 10_000_000, 1, true).unwrap();
    assert_eq!(bought.amount_out, 49_014_753_936);
    assert_eq!(bought.fee_amount, 100_000);
    let sold = swap(&mut p, &addr(1), &addr(2), &addr(5), bought.amount_out, 1, false).unwrap();
    assert_eq!(sold.amount_out, 9_802_931);
    assert!(sold.amount_out <= 10_000_000);
    assert_eq!(sold.fee_amount, 490_147_539);
    assert_eq!(p.sol_reserve, 1_000_000_000 + 10_000_000 - 9_802_931);
    assert_eq!(p.token_reserve, 5_000_000_000_000);
    assert_eq!(p.total_volume, 10_000_000 + 49_014_753_936);
}

#[test]
fn swap_rejects_zero_amount() {
    let mut p = pool(1000, 1_000_000, 100);
    let before = p;
    assert_eq!(swap(&mut p, &addr(1), &addr(2), &addr(5), 0, 0, true), Err(BoomError::ZeroAmount));
    assert_eq!(p, before);
    assert_eq!(BoomError::ZeroAmount.class(), ErrorClass::Validation);
}

#[test]
fn swap_rejects_slippage() {
    let mut p = pool(1000, 1_000_000, 100);
    let before = p;
    assert_eq!(
        swap(&mut p, &addr(1), &addr(2), &addr(5), 100, 90_082, true),
        Err(BoomError::SlippageExceeded)
    );
    assert_eq!(p, before);
    assert!(swap(&mut p, &addr(1), &addr(2), &addr(5), 100, 90_081, true).is_ok());
}

#[test]
fn swap_rejects_zero_output() {
    let mut p = pool(1_000_000, 10, 100);
    let before = p;
    assert_eq!(swap(&mut p, &addr(1), &addr(2), &addr(5), 1, 0, true), Err(BoomError::ZeroOutput));
    assert_eq!(p, before);
}

#[test]
fn swap_never_empties_a_reserve() {
    let mut p = pool(0, 500, 0);
    let before = p;
    assert_eq!(
        swap(&mut p, &addr(1), &addr(2), &addr(5), 10, 0, true),
        Err(BoomError::InsufficientLiquidity)
    );
    assert_eq!(p, before);
    assert_eq!(BoomError::InsufficientLiquidity.class(), ErrorClass::State);
}

#[test]
fn swap_rejects_foreign_mint_and_vault() {
    let mut p = pool(1000, 1_000_000, 100);
    assert_eq!(swap(&mut p, &addr(8), &addr(2), &addr(5), 100, 0, true), Err(BoomError::InvalidMint));
    assert_eq!(swap(&mut p, &addr(1), &addr(8), &addr(5), 100, 0, true), Err(BoomError::InvalidVault));
    assert_eq!(p, pool(1000, 1_000_000, 100));
}

#[test]
fn swap_surfaces_overflow_of_reserve_and_totals() {
    let mut p = pool(u64::MAX - 5, 1_000_000, 100);
    assert_eq!(swap(&mut p, &addr(1), &addr(2), &addr(5), 1_000_000_000_000_000_000, 0, true), Err(BoomError::Overflow));
    let mut q = pool(1000, 1_000_000, 100);
    q.total_volume = u128::MAX;
    let before = q;
    assert_eq!(swap(&mut q, &addr(1), &addr(2), &addr(5), 100, 0, true), Err(BoomError::Overflow));
    assert_eq!(q, before);
    let mut r = pool(1000, 1_000_000, 10_001);
    assert_eq!(swap(&mut r, &addr(1), &addr(2), &addr(5), 100, 0, true), Err(BoomError::Overflow));
    assert_eq!(BoomError::Overflow.class(), ErrorClass::Arithmetic);
}

#[test]
fn sell_moves_reserves_the_other_way() {
    let mut p = pool(1_000_000, 1000, 100);
    let event = swap(&mut p, &addr(1), &addr(2), &addr(5), 100, 0, false).unwrap();
    assert_eq!(event.amount_out, 90_081);
    assert!(!event.is_buy);
    assert_eq!(p.token_reserve, 1100);
    assert_eq!(p.sol_reserve, 1_000_000 - 90_081);
}

#[test]
fn price_swap_leaves_pool_alone() {
    let p = pool(1000, 1_000_000, 100);
    assert_eq!(price_swap(&p, 100, 0, true), Ok((90_081, 1)));
    assert_eq!(price_swap(&p, 0, 0, true), Err(BoomError::ZeroAmount));
}

#[test]
fn atomic_buy_is_a_buy() {
    let mut p = pool(1000, 1_000_000, 100);
    let mut q = p;
    let a = swap_atomic_buy(&mut p, &addr(1), &addr(2), &addr(5), 100, 0).unwrap();
    let b = swap(&mut q, &addr(1), &addr(2), &addr(5), 100, 0, true).unwrap();
    assert_eq!(a, b);
    assert_eq!(p, q);
    assert_eq!(a.amount_out, 90_081);
}

#[test]
fn atomic_sell_needs_the_deposit_to_be_seen() {
    let mut p = pool(1_000_000, 1000, 100);
    let before = p;
    assert_eq!(
        swap_atomic_sell(&mut p, &addr(2), &addr(5), 1099, 100, 0),
        Err(BoomError::InsufficientDeposit)
    );
    assert_eq!(p, before);
    let event = swap_atomic_sell(&mut p, &addr(2), &addr(5), 1105, 100, 0).unwrap();
    assert_eq!(event.amount_out, 90_081);
    assert_eq!(event.amount_in, 100);
    assert_eq!(p.token_reserve, 1105);
    assert_eq!(event.new_token_reserve, 1105);
    assert_eq!(p.sol_reserve, 1_000_000 - 90_081);
    assert_eq!(p.total_volume, 100);
}

#[test]
fn atomic_sell_errors() {
    let mut p = pool(1_000_000, 1000, 100);
    assert_eq!(swap_atomic_sell(&mut p, &addr(8), &addr(5), 1100, 100, 0), Err(BoomError::InvalidVault));
    assert_eq!(swap_atomic_sell(&mut p, &addr(2), &addr(5), 1100, 0, 0), Err(BoomError::ZeroAmount));
    assert_eq!(
        swap_atomic_sell(&mut p, &addr(2), &addr(5), 1100, 100, 90_082),
        Err(BoomError::SlippageExceeded)
    );
    let mut q = pool(1_000_000, u64::MAX, 100);
    assert_eq!(swap_atomic_sell(&mut q, &addr(2), &addr(5), u64::MAX, 1, 0), Err(BoomError::Overflow));
    assert_eq!(p, pool(1_000_000, 1000, 100));
}

#[test]
fn quote_reports_output_and_price_impact() {
    let p = pool(1000, 1_000_000, 100);
    let quote = get_swap_quote(&p, 100, true).unwrap();
    assert_eq!(quote.amount_out, 90_081);
    assert_eq!(quote.price_impact_bps, 991);
    assert_eq!(quote.fee_bps, 100);
    assert_eq!(quote.amount_in, 100);
    assert_eq!(quote.round_id, 7);
    assert!(quote.is_buy);
    let zero = get_swap_quote(&p, 0, false).unwrap();
    assert_eq!(zero.amount_out, 0);
    assert_eq!(zero.price_impact_bps, 0);
}

#[test]
fn quote_errors_on_empty_reserve() {
    let p = pool(0, 1_000_000, 100);
    assert_eq!(get_swap_quote(&p, 100, true), Err(BoomError::Overflow));
}

#[test]
fn arithmetic_helpers_exact_values() {
    assert_eq!(compute_fee_amount(100, 100), Ok(1));
    assert_eq!(compute_fee_amount(10_000_000, 100), Ok(100_000));
    assert_eq!(compute_fee_amount(u64::MAX, u16::MAX), Err(BoomError::Overflow));
    assert_eq!(compute_ideal_output(1000, 1_000_000, 100), Ok(100_000));
    assert_eq!(compute_ideal_output(0, 1_000_000, 100), Err(BoomError::Overflow));
    assert_eq!(compute_price_impact_bps(100_000, 90_081), Ok(991));
    assert_eq!(compute_price_impact_bps(0, 5), Ok(0));
    assert_eq!(compute_price_impact_bps(5, 6), Err(BoomError::Overflow));
    assert_eq!(compute_price_impact_bps(u128::MAX, 0), Err(BoomError::Overflow));
    assert_eq!(compute_payout_share(1000, 50, 999_500), Ok(0));
    assert_eq!(compute_payout_share(400_000, 1_000_000, 1_000_000), Ok(400_000));
    assert_eq!(compute_payout_share(1, 1, 0), Err(BoomError::Overflow));
    assert_eq!(compute_payout_share(u64::MAX, u64::MAX, 1), Err(BoomError::Overflow));
}

#[test]
fn create_pool_takes_what_the_round_holds_above_rent() {
    let (p, event) =
        make_pool(&finalized_round(500), &round_token(), &addr(9), &keys(), 100, 2_000_000, 1_500_000, 42)
            .unwrap();
    assert_eq!(p.sol_reserve, 500_000);
    assert_eq!(p.token_reserve, 42);
    assert_eq!(p.fee_bps, 100);
    assert_eq!(p.round_id, 7);
    assert_eq!(p.mint, addr(1));
    assert_eq!(p.token_vault, addr(2));
    assert_eq!(p.sol_vault, addr(3));
    assert_eq!(p.total_volume, 0);
    assert_eq!(p.total_fees, 0);
    assert_eq!((p.bump, p.token_vault_bump, p.sol_vault_bump), (254, 253, 252));
    assert_eq!(event.sol_reserve, 500_000);
    assert_eq!(event.token_reserve, 42);
    assert_eq!(event.fee_bps, 100);
}

#[test]
fn create_pool_allows_empty_asset_vault_and_fee_at_cap() {
    let (p, _) =
        make_pool(&finalized_round(500), &round_token(), &addr(9), &keys(), 1000, 10, 10, 0).unwrap();
    assert_eq!(p.token_reserve, 0);
    assert_eq!(p.sol_reserve, 0);
    assert_eq!(p.fee_bps, 1000);
}

#[test]
fn create_pool_errors() {
    let round = finalized_round(500);
    let token = round_token();
    assert_eq!(
        make_pool(&round, &token, &addr(9), &keys(), 1001, 10, 5, 0),
        Err(BoomError::FeeTooHigh)
    );
    assert_eq!(BoomError::FeeTooHigh.class(), ErrorClass::Validation);
    assert_eq!(
        make_pool(&round, &token, &addr(4), &keys(), 100, 10, 5, 0),
        Err(BoomError::Unauthorized)
    );
    assert_eq!(BoomError::Unauthorized.class(), ErrorClass::Authorization);
    let mut open = round;
    open.is_finalized = false;
    assert_eq!(
        make_pool(&open, &token, &addr(9), &keys(), 100, 10, 5, 0),
        Err(BoomError::PresaleNotFinalized)
    );
    assert_eq!(BoomError::PresaleNotFinalized.class(), ErrorClass::State);
    assert_eq!(
        make_pool(&finalized_round(0), &token, &addr(9), &keys(), 100, 10, 5, 0),
        Err(BoomError::NoSolForPool)
    );
    assert_eq!(
        make_pool(&round, &token, &addr(9), &keys(), 100, 4, 5, 0),
        Err(BoomError::Overflow)
    );
    let mut other = token;
    other.mint = addr(6);
    assert_eq!(
        make_pool(&round, &other, &addr(9), &keys(), 100, 10, 5, 0),
        Err(BoomError::InvalidMint)
    );
    let mut foreign = token;
    foreign.round_id = 8;
    assert_eq!(
        make_pool(&round, &foreign, &addr(9), &keys(), 100, 10, 5, 0),
        Err(BoomError::TokenNotCreated)
    );
}

#[test]
fn deposit_pool_tokens_admits_authority_only() {
    let round = finalized_round(500);
    let token = round_token();
    let event = deposit_pool_tokens(&round, &token, &addr(9), &addr(1), 77).unwrap();
    assert_eq!(event.round_id, 7);
    assert_eq!(event.amount, 77);
    assert_eq!(deposit_pool_tokens(&round, &token, &addr(8), &addr(1), 77), Err(BoomError::Unauthorized));
    assert_eq!(deposit_pool_tokens(&round, &token, &addr(9), &addr(8), 77), Err(BoomError::InvalidMint));
}

#[test]
fn sync_sets_reserves_to_vault_balances() {
    let mut p = pool(1, 2, 100);
    sync_pool_reserves(&mut p, 5000, 1_000_000, 890_880);
    assert_eq!(p.token_reserve, 5000);
    assert_eq!(p.sol_reserve, 109_120);
    sync_pool_reserves(&mut p, 6000, 100, 890_880);
    assert_eq!(p.token_reserve, 6000);
    assert_eq!(p.sol_reserve, 0);
    assert_eq!(p.fee_bps, 100);
}

#[test]
fn pool_is_created_once() {
    let round = finalized_round(500);
    let mut slot = None;
    let created =
        create_pool(&round, &round_token(), &addr(9), &mut slot, &keys(), 100, 2_000, 500, 42).unwrap();
    assert_eq!(created.sol_reserve, 1_500);
    let pool = slot.unwrap();
    assert_eq!(pool.sol_reserve, 1_500);
    assert_eq!(pool.token_reserve, 42);
    assert_eq!(
        create_pool(&round, &round_token(), &addr(9), &mut slot, &keys(), 50, 9_000, 500, 7),
        Err(BoomError::PoolAlreadyCreated)
    );
    assert_eq!(slot, Some(pool));
    assert_eq!(
        create_pool(&round, &round_token(), &addr(4), &mut slot, &keys(), 5000, 0, 500, 7),
        Err(BoomError::PoolAlreadyCreated)
    );
    assert_eq!(slot, Some(pool));
    let mut empty = None;
    assert_eq!(
        create_pool(&round, &round_token(), &addr(4), &mut empty, &keys(), 100, 2_000, 500, 42),
        Err(BoomError::Unauthorized)
    );
    assert_eq!(empty, None);
}
