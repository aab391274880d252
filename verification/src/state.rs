//! The persisted records of the launch engine. Each is a fixed-size record
//! that an operation receives by reference; none is a process-wide global.

use crate::address::Address;
use crate::math::MAX_FEE_BPS;
use vstd::prelude::*;

verus! {

/// The protocol-wide configuration: created once, changed only by its authority.
#[derive(Clone, Copy, Debug, PartialEq, Eq)]
pub struct Protocol {
    pub authority: Address,
    pub treasury: Address,
    pub min_cap: u64,
    pub max_cap: u64,
    pub fee_bps: u16,
    pub total_launches: u64,
    pub total_explosions: u64,
    pub bump: u8,
}

/// The values the authority chooses when the protocol is set up.
#[derive(Clone, Copy, Debug, PartialEq, Eq)]
pub struct ProtocolConfig {
    pub min_cap: u64,
    pub max_cap: u64,
    pub fee_bps: u16,
}

/// Why a launch detonated.
#[derive(Clone, Copy, Debug, PartialEq, Eq, Structural)]
pub enum ExplosionReason {
    /// Not detonated.
    Unexploded,
    /// The hidden threshold was revealed.
    CapHit,
    /// The deadline passed.
    TimeLimit,
}

impl Default for ExplosionReason {
    fn default() -> (r: ExplosionReason)
        ensures
            r == ExplosionReason::Unexploded,
    {
        ExplosionReason::Unexploded
    }
}

/// One launch: the asset, the commitment to its hidden threshold, and whether,
/// when and why it detonated.
#[derive(Clone, Copy, Debug, PartialEq, Eq)]
pub struct BoomToken {
    pub mint: Address,
    pub name: [u8; 32],
    pub symbol: [u8; 8],
    pub creator: Address,
    pub created_at: i64,
    pub cap_hash: [u8; 32],
    pub revealed_cap: u64,
    pub is_exploded: bool,
    pub explosion_time: i64,
    pub explosion_deadline: i64,
    pub explosion_reason: ExplosionReason,
    pub total_payout: u64,
    pub bump: u8,
}

impl BoomToken {
    /// Whether a commitment has been stored: an empty slot holds the all-zero
    /// digest.
    pub open spec fn has_commitment(&self) -> bool {
        self.cap_hash@ != Address::zero()
    }

    /// A launch is detonated exactly when it records a reason, and carries no
    /// trace of a detonation before. Its deadline is a positive time, or zero
    /// while none is set.
    pub open spec fn wf(&self) -> bool {
        &&& self.is_exploded <==> self.explosion_reason != ExplosionReason::Unexploded
        &&& !self.is_exploded ==> self.revealed_cap == 0 && self.explosion_time == 0
        &&& self.explosion_deadline >= 0
    }
}

/// A funding round: its deposit window and what was collected in it.
#[derive(Clone, Copy, Debug, PartialEq, Eq)]
pub struct PresaleRound {
    pub authority: Address,
    pub round_id: u64,
    pub start_time: i64,
    pub end_time: i64,
    pub lottery_spots: u32,
    pub min_deposit: u64,
    pub max_deposit: u64,
    pub total_deposited: u64,
    pub total_depositors: u32,
    pub is_finalized: bool,
    pub bump: u8,
}

/// What one depositor has put into a round, and what became of it.
#[derive(Clone, Copy, Debug, PartialEq, Eq)]
pub struct UserDeposit {
    pub depositor: Address,
    pub round_id: u64,
    pub amount: u64,
    pub deposit_time: i64,
    pub is_winner: bool,
    pub claimed: bool,
    pub bump: u8,
}

/// The asset issued for a round.
#[derive(Clone, Copy, Debug, PartialEq, Eq)]
pub struct PresaleToken {
    pub round_id: u64,
    pub mint: Address,
    pub total_supply: u64,
    pub tokens_per_winner: u64,
    pub bump: u8,
}

/// The detonation state of a round's asset.
#[derive(Clone, Copy, Debug, PartialEq, Eq)]
pub struct PresaleExplosion {
    pub round_id: u64,
    pub cap_hash: [u8; 32],
    pub revealed_cap: u64,
    pub explosion_deadline: i64,
    pub is_exploded: bool,
    pub explosion_time: i64,
    pub explosion_reason: ExplosionReason,
    pub total_sol_for_payout: u64,
    pub bump: u8,
}

impl PresaleExplosion {
    /// Detonated exactly when a reason is recorded; nothing of a detonation is
    /// recorded before it, and nothing is reserved for payout before it. The
    /// commitment is there from the start, and the deadline is a positive time,
    /// or zero while the timer has not started.
    pub open spec fn wf(&self) -> bool {
        &&& self.is_exploded <==> self.explosion_reason != ExplosionReason::Unexploded
        &&& !self.is_exploded ==> self.revealed_cap == 0 && self.explosion_time == 0
            && self.total_sol_for_payout == 0
        &&& self.explosion_deadline >= 0
        &&& self.cap_hash@ != Address::zero()
    }
}

/// The external venue registered for a round.
#[derive(Clone, Copy, Debug, PartialEq, Eq)]
pub struct LpInfo {
    pub round_id: u64,
    pub pool_id: Address,
    pub lp_mint: Address,
    pub vault_a: Address,
    pub vault_b: Address,
    pub registered_at: i64,
    pub bump: u8,
}

/// What is to be distributed after a detonation, against the supply that was
/// left when the pool was unwound.
#[derive(Clone, Copy, Debug, PartialEq, Eq)]
pub struct PayoutPool {
    pub round_id: u64,
    pub total_sol: u64,
    pub remaining_supply: u64,
    pub claimed_count: u32,
    pub bump: u8,
}

/// The constant-product pool of a round.
#[derive(Clone, Copy, Debug, PartialEq, Eq)]
pub struct Pool {
    pub round_id: u64,
    pub mint: Address,
    pub token_vault: Address,
    pub sol_vault: Address,
    pub sol_reserve: u64,
    pub token_reserve: u64,
    pub fee_bps: u16,
    pub total_volume: u128,
    pub total_fees: u128,
    pub bump: u8,
    pub token_vault_bump: u8,
    pub sol_vault_bump: u8,
}

impl Pool {
    /// The fee of a pool never exceeds the cap.
    pub open spec fn wf(&self) -> bool {
        self.fee_bps <= MAX_FEE_BPS
    }
}

/// Chains one round to the next.
#[derive(Clone, Copy, Debug, PartialEq, Eq)]
pub struct RoundSequencer {
    pub authority: Address,
    pub current_round: u64,
    pub last_explosion_round: u64,
    pub auto_advance_enabled: bool,
    pub default_cooldown: i64,
    pub default_lottery_spots: u32,
    pub default_min_deposit: u64,
    pub default_max_deposit: u64,
    pub bump: u8,
}

} // verus!
