//! What each operation reports when it succeeds. The caller publishes the
//! record and carries out the movements it describes.

use crate::address::Address;
use crate::state::ExplosionReason;
use vstd::prelude::*;

verus! {

#[derive(Clone, Copy, Debug, PartialEq, Eq)]
pub struct PresaleStarted {
    pub round_id: u64,
    pub end_time: i64,
    pub lottery_spots: u32,
    pub min_deposit: u64,
    pub max_deposit: u64,
}

#[derive(Clone, Copy, Debug, PartialEq, Eq)]
pub struct DepositMade {
    pub round_id: u64,
    pub depositor: Address,
    pub amount: u64,
    pub total_amount: u64,
}

#[derive(Clone, Copy, Debug, PartialEq, Eq)]
pub struct PresaleFinalized {
    pub round_id: u64,
    pub total_deposited: u64,
    pub total_depositors: u32,
    pub winners_count: u32,
}

#[derive(Clone, Copy, Debug, PartialEq, Eq)]
pub struct WinnerMarked {
    pub round_id: u64,
    pub winner: Address,
    pub amount: u64,
}

#[derive(Clone, Copy, Debug, PartialEq, Eq)]
pub struct RefundClaimed {
    pub round_id: u64,
    pub depositor: Address,
    pub amount: u64,
}

#[derive(Clone, Copy, Debug, PartialEq, Eq)]
pub struct WinnerClaimed {
    pub round_id: u64,
    pub winner: Address,
    pub deposit_amount: u64,
    pub tokens_minted: u64,
}

#[derive(Clone, Copy, Debug, PartialEq, Eq)]
pub struct PresaleTokenCreated {
    pub round_id: u64,
    pub mint: Address,
    pub total_supply: u64,
    pub tokens_per_winner: u64,
}

#[derive(Clone, Copy, Debug, PartialEq, Eq)]
pub struct TokenExploded {
    pub mint: Address,
    pub reason: ExplosionReason,
    pub revealed_cap: Option<u64>,
    pub explosion_time: i64,
}

#[derive(Clone, Copy, Debug, PartialEq, Eq)]
pub struct TimeLimitSet {
    pub mint: Address,
    pub deadline: i64,
}

#[derive(Clone, Copy, Debug, PartialEq, Eq)]
pub struct LiquidityPoolCreated {
    pub round_id: u64,
    pub pool: Address,
    pub sol_amount: u64,
    pub token_amount: u64,
}

#[derive(Clone, Copy, Debug, PartialEq, Eq)]
pub struct LpRegistered {
    pub round_id: u64,
    pub pool_id: Address,
    pub lp_mint: Address,
}

#[derive(Clone, Copy, Debug, PartialEq, Eq)]
pub struct ExplosionInitialized {
    pub round_id: u64,
    pub deadline: i64,
}

#[derive(Clone, Copy, Debug, PartialEq, Eq)]
pub struct TimerStarted {
    pub round_id: u64,
    pub duration_seconds: i64,
    pub deadline: i64,
}

#[derive(Clone, Copy, Debug, PartialEq, Eq)]
pub struct PresaleExplosionTriggered {
    pub round_id: u64,
    pub reason: ExplosionReason,
    pub revealed_cap: Option<u64>,
}

#[derive(Clone, Copy, Debug, PartialEq, Eq)]
pub struct PayoutClaimed {
    pub round_id: u64,
    pub user: Address,
    pub amount: u64,
}

#[derive(Clone, Copy, Debug, PartialEq, Eq)]
pub struct PythPriceUsed {
    pub sol_usd_price: u64,
    pub exponent: i32,
}

#[derive(Clone, Copy, Debug, PartialEq, Eq)]
pub struct LpUnwound {
    pub round_id: u64,
    pub total_sol: u64,
    pub remaining_supply: u64,
}

#[derive(Clone, Copy, Debug, PartialEq, Eq)]
pub struct NextRoundStarted {
    pub previous_round: u64,
    pub new_round: u64,
    pub auto_advanced: bool,
}

#[derive(Clone, Copy, Debug, PartialEq, Eq)]
pub struct RoundSequencerUpdated {
    pub current_round: u64,
    pub last_explosion_round: u64,
}

#[derive(Clone, Copy, Debug, PartialEq, Eq)]
pub struct PoolCreated {
    pub round_id: u64,
    pub mint: Address,
    pub sol_reserve: u64,
    pub token_reserve: u64,
    pub fee_bps: u16,
}

#[derive(Clone, Copy, Debug, PartialEq, Eq)]
pub struct SwapExecuted {
    pub round_id: u64,
    pub user: Address,
    pub is_buy: bool,
    pub amount_in: u64,
    pub amount_out: u64,
    pub fee_amount: u64,
    pub new_sol_reserve: u64,
    pub new_token_reserve: u64,
}

#[derive(Clone, Copy, Debug, PartialEq, Eq)]
pub struct SwapQuote {
    pub round_id: u64,
    pub is_buy: bool,
    pub amount_in: u64,
    pub amount_out: u64,
    pub price_impact_bps: u16,
    pub fee_bps: u16,
}

#[derive(Clone, Copy, Debug, PartialEq, Eq)]
pub struct PoolTokensDeposited {
    pub round_id: u64,
    pub amount: u64,
}

} // verus!
