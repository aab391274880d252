//! The detonation lifecycle of a round's asset: a commitment to a hidden
//! threshold, a timer, the two triggers of which only one can ever fire, the
//! unwind that freezes the payout, and the pro-rata claims.
//!
//! Every operation checks its "not yet done" flag before anything else and
//! leaves every record untouched when it fails.

use crate::address::{bytes32_equal, bytes32_is_zero, Address};
use crate::digest::{cap_commitment, commit_cap};
use crate::errors::{BoomError, ErrorClass};
use crate::events::{
    ExplosionInitialized, LpUnwound, PayoutClaimed, PresaleExplosionTriggered, PythPriceUsed,
    TimerStarted,
};
use crate::math::{
    compute_payout_share, lemma_shares_within_total, payout_share, total_balance, total_paid,
};
use crate::state::{
    ExplosionReason, LpInfo, PayoutPool, Pool, PresaleExplosion, PresaleRound, PresaleToken,
};
use vstd::prelude::*;

verus! {

/// The longest a price may have aged when it is used, in seconds.
pub const MAX_PRICE_AGE_SECONDS: i64 = 60;

/// The feed that quotes the currency in dollars.
pub const SOL_USD_FEED_ID: [u8; 32] = [
    0xef, 0x0d, 0x8b, 0x6f, 0xda, 0x2c, 0xeb, 0xa4, 0x1d, 0xa1, 0x5d, 0x40, 0x95, 0xd1, 0xda, 0x39,
    0x2a, 0x0d, 0x2f, 0x8e, 0xd0, 0xc6, 0xc7, 0xbc, 0x0f, 0x4c, 0xfa, 0xc8, 0xc2, 0x80, 0xb5, 0x6d,
];

/// A price as the feed returned it: `price * 10^exponent`, published at
/// `publish_time`.
#[derive(Clone, Copy, Debug, PartialEq, Eq)]
pub struct PriceReading {
    pub feed_id: [u8; 32],
    pub price: i64,
    pub exponent: i32,
    pub publish_time: i64,
}

impl PriceReading {
    /// A reading is usable at `now` when it quotes the expected feed and is at
    /// most `MAX_PRICE_AGE_SECONDS` old.
    pub open spec fn usable_at(&self, now: i64) -> bool {
        &&& self.feed_id@ == SOL_USD_FEED_ID@
        &&& self.publish_time + MAX_PRICE_AGE_SECONDS >= now
    }
}

// ---------------------------------------------------------------------------
// Commitment
// ---------------------------------------------------------------------------

/// What `init_presale_explosion` does.
pub open spec fn init_presale_explosion_outcome(
    presale: PresaleRound,
    authority: Address,
    explosion_slot: Option<PresaleExplosion>,
    cap_hash: [u8; 32],
    bump: u8,
) -> Result<(PresaleExplosion, ExplosionInitialized), BoomError> {
    if explosion_slot is Some {
        Err(BoomError::CapAlreadySet)
    } else if authority != presale.authority {
        Err(BoomError::Unauthorized)
    } else if !presale.is_finalized {
        Err(BoomError::PresaleNotFinalized)
    } else if cap_hash@ == Address::zero() {
        Err(BoomError::EmptyCommitment)
    } else {
        Ok(
            (
                PresaleExplosion {
                    round_id: presale.round_id,
                    cap_hash,
                    revealed_cap: 0,
                    explosion_deadline: 0,
                    is_exploded: false,
                    explosion_time: 0,
                    explosion_reason: ExplosionReason::Unexploded,
                    total_sol_for_payout: 0,
                    bump,
                },
                ExplosionInitialized { round_id: presale.round_id, deadline: 0 },
            ),
        )
    }
}

/// Opens the detonation state of a finalized round and stores the commitment,
/// once: the state is created in `explosion_slot`, which must be empty. The
/// commitment may not be the all-zero digest. Only the round's authority may
/// do so. The timer is not started.
pub fn init_presale_explosion(
    presale: &PresaleRound,
    authority: &Address,
    explosion_slot: &mut Option<PresaleExplosion>,
    cap_hash: [u8; 32],
    bump: u8,
) -> (r: Result<ExplosionInitialized, BoomError>)
    ensures
        match init_presale_explosion_outcome(
            *presale,
            *authority,
            *old(explosion_slot),
            cap_hash,
            bump,
        ) {
            Ok((explosion, event)) => r == Ok::<ExplosionInitialized, BoomError>(event)
                && *final(explosion_slot) == Some(explosion) && explosion.wf()
                && explosion.cap_hash == cap_hash,
            Err(e) => r == Err::<ExplosionInitialized, BoomError>(e) && *final(explosion_slot)
                == *old(explosion_slot),
        },
{
    if explosion_slot.is_some() {
        return Err(BoomError::CapAlreadySet);
    }
    if !authority.same(&presale.authority) {
        return Err(BoomError::Unauthorized);
    }
    if !presale.is_finalized {
        return Err(BoomError::PresaleNotFinalized);
    }
    if bytes32_is_zero(&cap_hash) {
        return Err(BoomError::EmptyCommitment);
    }
    *explosion_slot = Some(
        PresaleExplosion {
            round_id: presale.round_id,
            cap_hash,
            revealed_cap: 0,
            explosion_deadline: 0,
            is_exploded: false,
            explosion_time: 0,
            explosion_reason: ExplosionReason::Unexploded,
            total_sol_for_payout: 0,
            bump,
        },
    );
    Ok(ExplosionInitialized { round_id: presale.round_id, deadline: 0 })
}

/// A round's commitment is set once: after the detonation state has been
/// opened, any further attempt on the filled slot fails with `CapAlreadySet`,
/// a state error, whoever tries and with whatever digest.
pub proof fn lemma_round_commitment_is_set_once(
    presale: PresaleRound,
    authority: Address,
    explosion_slot: Option<PresaleExplosion>,
    cap_hash: [u8; 32],
    bump: u8,
    other_authority: Address,
    other_hash: [u8; 32],
)
    requires
        init_presale_explosion_outcome(presale, authority, explosion_slot, cap_hash, bump) is Ok,
    ensures
        ({
            let opened = init_presale_explosion_outcome(
                presale,
                authority,
                explosion_slot,
                cap_hash,
                bump,
            )->Ok_0.0;
            &&& opened.cap_hash == cap_hash
            &&& opened.cap_hash@ != Address::zero()
            &&& init_presale_explosion_outcome(
                presale,
                other_authority,
                Some(opened),
                other_hash,
                bump,
            ) == Err::<(PresaleExplosion, ExplosionInitialized), BoomError>(
                BoomError::CapAlreadySet,
            )
        }),
        BoomError::CapAlreadySet.spec_class() == ErrorClass::State,
{
}

// ---------------------------------------------------------------------------
// Timer
// ---------------------------------------------------------------------------

/// What `start_explosion_timer` does.
pub open spec fn start_explosion_timer_outcome(
    explosion: PresaleExplosion,
    lp_info: LpInfo,
    duration_seconds: i64,
    now: i64,
) -> Result<(PresaleExplosion, TimerStarted), BoomError> {
    if explosion.is_exploded {
        Err(BoomError::AlreadyExploded)
    } else if explosion.explosion_deadline != 0 {
        Err(BoomError::DeadlineAlreadySet)
    } else if lp_info.round_id != explosion.round_id {
        Err(BoomError::LpNotRegistered)
    } else if duration_seconds <= 0 {
        Err(BoomError::InvalidDuration)
    } else if now + duration_seconds > i64::MAX {
        Err(BoomError::Overflow)
    } else if now + duration_seconds <= 0 {
        Err(BoomError::DeadlineInPast)
    } else {
        let deadline = (now + duration_seconds) as i64;
        Ok(
            (
                PresaleExplosion { explosion_deadline: deadline, ..explosion },
                TimerStarted { round_id: explosion.round_id, duration_seconds, deadline },
            ),
        )
    }
}

/// Starts the timer, once: the deadline becomes `now + duration_seconds`, which
/// must be a positive time, since a deadline of zero is what a timer not yet
/// started holds. The round's liquidity must be registered already, which
/// `lp_info` witnesses.
pub fn start_explosion_timer(
    explosion: &mut PresaleExplosion,
    lp_info: &LpInfo,
    duration_seconds: i64,
    now: i64,
) -> (r: Result<TimerStarted, BoomError>)
    ensures
        match start_explosion_timer_outcome(*old(explosion), *lp_info, duration_seconds, now) {
            Ok((next, event)) => r == Ok::<TimerStarted, BoomError>(event) && *final(explosion)
                == next,
            Err(e) => r == Err::<TimerStarted, BoomError>(e)
                && *final(explosion) == *old(explosion),
        },
        r is Ok ==> final(explosion).explosion_deadline > 0,
        old(explosion).wf() ==> final(explosion).wf(),
{
    if explosion.is_exploded {
        return Err(BoomError::AlreadyExploded);
    }
    if explosion.explosion_deadline != 0 {
        return Err(BoomError::DeadlineAlreadySet);
    }
    if lp_info.round_id != explosion.round_id {
        return Err(BoomError::LpNotRegistered);
    }
    if duration_seconds <= 0 {
        return Err(BoomError::InvalidDuration);
    }
    let deadline: i64 = match now.checked_add(duration_seconds) {
        Some(d) => d,
        None => {
            return Err(BoomError::Overflow);
        },
    };
    if deadline <= 0 {
        return Err(BoomError::DeadlineInPast);
    }
    explosion.explosion_deadline = deadline;
    Ok(TimerStarted { round_id: explosion.round_id, duration_seconds, deadline })
}

/// The timer starts at most once: after it has been started, any further
/// attempt fails with `DeadlineAlreadySet`, a state error, and the deadline
/// stays; and the deadline trigger can fire from then on as soon as the clock
/// reaches it.
pub proof fn lemma_timer_starts_once(
    explosion: PresaleExplosion,
    lp_info: LpInfo,
    duration_seconds: i64,
    now: i64,
    other_lp: LpInfo,
    other_duration: i64,
    later: i64,
)
    requires
        start_explosion_timer_outcome(explosion, lp_info, duration_seconds, now) is Ok,
    ensures
        ({
            let started = start_explosion_timer_outcome(
                explosion,
                lp_info,
                duration_seconds,
                now,
            )->Ok_0.0;
            &&& started.explosion_deadline == now + duration_seconds
            &&& started.explosion_deadline > 0
            &&& start_explosion_timer_outcome(started, other_lp, other_duration, later) == Err::<
                (PresaleExplosion, TimerStarted),
                BoomError,
            >(BoomError::DeadlineAlreadySet)
            &&& later >= started.explosion_deadline ==> deadline_outcome(started, later) is Ok
        }),
        BoomError::DeadlineAlreadySet.spec_class() == ErrorClass::State,
{
}

// ---------------------------------------------------------------------------
// Triggers
// ---------------------------------------------------------------------------

/// What a reveal does, given the digest of the revealed value.
pub open spec fn reveal_outcome(
    explosion: PresaleExplosion,
    revealed_cap: u64,
    digest: Seq<u8>,
    now: i64,
) -> Result<(PresaleExplosion, PresaleExplosionTriggered), BoomError> {
    if explosion.is_exploded {
        Err(BoomError::AlreadyExploded)
    } else if explosion.cap_hash@ == Address::zero() || digest != explosion.cap_hash@ {
        Err(BoomError::InvalidCapReveal)
    } else {
        Ok(
            (
                PresaleExplosion {
                    is_exploded: true,
                    revealed_cap,
                    explosion_time: now,
                    explosion_reason: ExplosionReason::CapHit,
                    ..explosion
                },
                PresaleExplosionTriggered {
                    round_id: explosion.round_id,
                    reason: ExplosionReason::CapHit,
                    revealed_cap: Some(revealed_cap),
                },
            ),
        )
    }
}

/// Detonates by reveal, given the digest that the caller computed of
/// `revealed_cap`: the digest must equal the stored commitment, and a record
/// without a commitment is matched by nothing.
pub fn reveal_with_digest(
    explosion: &mut PresaleExplosion,
    revealed_cap: u64,
    digest: &[u8; 32],
    now: i64,
) -> (r: Result<PresaleExplosionTriggered, BoomError>)
    ensures
        match reveal_outcome(*old(explosion), revealed_cap, digest@, now) {
            Ok((next, event)) => r == Ok::<PresaleExplosionTriggered, BoomError>(event)
                && *final(explosion) == next,
            Err(e) => r == Err::<PresaleExplosionTriggered, BoomError>(e) && *final(explosion)
                == *old(explosion),
        },
        old(explosion).wf() ==> final(explosion).wf(),
{
    if explosion.is_exploded {
        return Err(BoomError::AlreadyExploded);
    }
    if bytes32_is_zero(&explosion.cap_hash) || !bytes32_equal(digest, &explosion.cap_hash) {
        return Err(BoomError::InvalidCapReveal);
    }
    explosion.is_exploded = true;
    explosion.revealed_cap = revealed_cap;
    explosion.explosion_time = now;
    explosion.explosion_reason = ExplosionReason::CapHit;
    Ok(
        PresaleExplosionTriggered {
            round_id: explosion.round_id,
            reason: ExplosionReason::CapHit,
            revealed_cap: Some(revealed_cap),
        },
    )
}

/// Detonates by revealing the hidden threshold: the digest of `revealed_cap`
/// must equal the stored commitment.
pub fn trigger_presale_explosion_cap(
    explosion: &mut PresaleExplosion,
    revealed_cap: u64,
    now: i64,
) -> (r: Result<PresaleExplosionTriggered, BoomError>)
    ensures
        match reveal_outcome(*old(explosion), revealed_cap, cap_commitment(revealed_cap), now) {
            Ok((next, event)) => r == Ok::<PresaleExplosionTriggered, BoomError>(event)
                && *final(explosion) == next,
            Err(e) => r == Err::<PresaleExplosionTriggered, BoomError>(e) && *final(explosion)
                == *old(explosion),
        },
        old(explosion).wf() ==> final(explosion).wf(),
{
    if explosion.is_exploded {
        return Err(BoomError::AlreadyExploded);
    }
    let digest = commit_cap(revealed_cap);
    reveal_with_digest(explosion, revealed_cap, &digest, now)
}

/// What a reveal backed by a price does, given the digest of the revealed value.
pub open spec fn priced_reveal_outcome(
    explosion: PresaleExplosion,
    presale_token: PresaleToken,
    lp_info: LpInfo,
    price: PriceReading,
    revealed_cap: u64,
    digest: Seq<u8>,
    now: i64,
) -> Result<(PresaleExplosion, PresaleExplosionTriggered, PythPriceUsed), BoomError> {
    if explosion.is_exploded {
        Err(BoomError::AlreadyExploded)
    } else if presale_token.round_id != explosion.round_id {
        Err(BoomError::TokenNotCreated)
    } else if lp_info.round_id != explosion.round_id {
        Err(BoomError::LpNotRegistered)
    } else if explosion.cap_hash@ == Address::zero() || digest != explosion.cap_hash@ {
        Err(BoomError::InvalidCapReveal)
    } else if !price.usable_at(now) {
        Err(BoomError::PriceStale)
    } else if price.price < 0 {
        Err(BoomError::Overflow)
    } else {
        match reveal_outcome(explosion, revealed_cap, digest, now) {
            Ok((next, event)) => Ok(
                (
                    next,
                    event,
                    PythPriceUsed { sol_usd_price: price.price as u64, exponent: price.exponent },
                ),
            ),
            Err(e) => Err(e),
        }
    }
}

/// Detonates by reveal as `reveal_with_digest` does, and besides demands a
/// usable price: one of the expected feed, no older than
/// `MAX_PRICE_AGE_SECONDS`.
pub fn priced_reveal_with_digest(
    explosion: &mut PresaleExplosion,
    presale_token: &PresaleToken,
    lp_info: &LpInfo,
    price: &PriceReading,
    revealed_cap: u64,
    digest: &[u8; 32],
    now: i64,
) -> (r: Result<(PresaleExplosionTriggered, PythPriceUsed), BoomError>)
    ensures
        match priced_reveal_outcome(
            *old(explosion),
            *presale_token,
            *lp_info,
            *price,
            revealed_cap,
            digest@,
            now,
        ) {
            Ok((next, event, used)) => r == Ok::<
                (PresaleExplosionTriggered, PythPriceUsed),
                BoomError,
            >((event, used)) && *final(explosion) == next,
            Err(e) => r == Err::<(PresaleExplosionTriggered, PythPriceUsed), BoomError>(e)
                && *final(explosion) == *old(explosion),
        },
        old(explosion).wf() ==> final(explosion).wf(),
{
    if explosion.is_exploded {
        return Err(BoomError::AlreadyExploded);
    }
    if presale_token.round_id != explosion.round_id {
        return Err(BoomError::TokenNotCreated);
    }
    if lp_info.round_id != explosion.round_id {
        return Err(BoomError::LpNotRegistered);
    }
    if bytes32_is_zero(&explosion.cap_hash) || !bytes32_equal(digest, &explosion.cap_hash) {
        return Err(BoomError::InvalidCapReveal);
    }
    if !bytes32_equal(&price.feed_id, &SOL_USD_FEED_ID) {
        return Err(BoomError::PriceStale);
    }
    let fresh: bool = match price.publish_time.checked_add(MAX_PRICE_AGE_SECONDS) {
        Some(limit) => limit >= now,
        None => true,
    };
    if !fresh {
        return Err(BoomError::PriceStale);
    }
    if price.price < 0 {
        return Err(BoomError::Overflow);
    }
    let event = reveal_with_digest(explosion, revealed_cap, digest, now)?;
    Ok((event, PythPriceUsed { sol_usd_price: price.price as u64, exponent: price.exponent }))
}

/// Detonates by revealing the hidden threshold while a usable price of the
/// currency is at hand. The price is recorded, not compared with the
/// threshold.
pub fn trigger_explosion_with_pyth(
    explosion: &mut PresaleExplosion,
    presale_token: &PresaleToken,
    lp_info: &LpInfo,
    price: &PriceReading,
    revealed_cap: u64,
    now: i64,
) -> (r: Result<(PresaleExplosionTriggered, PythPriceUsed), BoomError>)
    ensures
        match priced_reveal_outcome(
            *old(explosion),
            *presale_token,
            *lp_info,
            *price,
            revealed_cap,
            cap_commitment(revealed_cap),
            now,
        ) {
            Ok((next, event, used)) => r == Ok::<
                (PresaleExplosionTriggered, PythPriceUsed),
                BoomError,
            >((event, used)) && *final(explosion) == next,
            Err(e) => r == Err::<(PresaleExplosionTriggered, PythPriceUsed), BoomError>(e)
                && *final(explosion) == *old(explosion),
        },
        old(explosion).wf() ==> final(explosion).wf(),
{
    if explosion.is_exploded {
        return Err(BoomError::AlreadyExploded);
    }
    let digest = commit_cap(revealed_cap);
    priced_reveal_with_digest(explosion, presale_token, lp_info, price, revealed_cap, &digest, now)
}

/// What the deadline trigger does.
pub open spec fn deadline_outcome(explosion: PresaleExplosion, now: i64) -> Result<
    (PresaleExplosion, PresaleExplosionTriggered),
    BoomError,
> {
    if explosion.is_exploded {
        Err(BoomError::AlreadyExploded)
    } else if explosion.explosion_deadline <= 0 {
        Err(BoomError::NoDeadlineSet)
    } else if now < explosion.explosion_deadline {
        Err(BoomError::DeadlineNotReached)
    } else {
        Ok(
            (
                PresaleExplosion {
                    is_exploded: true,
                    explosion_time: now,
                    explosion_reason: ExplosionReason::TimeLimit,
                    ..explosion
                },
                PresaleExplosionTriggered {
                    round_id: explosion.round_id,
                    reason: ExplosionReason::TimeLimit,
                    revealed_cap: None,
                },
            ),
        )
    }
}

/// Detonates because the deadline has passed. Whoever calls is authorized: the
/// condition is on the clock and the state, not on the caller.
pub fn trigger_presale_explosion_time(explosion: &mut PresaleExplosion, now: i64) -> (r: Result<
    PresaleExplosionTriggered,
    BoomError,
>)
    ensures
        match deadline_outcome(*old(explosion), now) {
            Ok((next, event)) => r == Ok::<PresaleExplosionTriggered, BoomError>(event)
                && *final(explosion) == next,
            Err(e) => r == Err::<PresaleExplosionTriggered, BoomError>(e) && *final(explosion)
                == *old(explosion),
        },
        old(explosion).wf() ==> final(explosion).wf(),
{
    if explosion.is_exploded {
        return Err(BoomError::AlreadyExploded);
    }
    if explosion.explosion_deadline <= 0 {
        return Err(BoomError::NoDeadlineSet);
    }
    if now < explosion.explosion_deadline {
        return Err(BoomError::DeadlineNotReached);
    }
    explosion.is_exploded = true;
    explosion.explosion_time = now;
    explosion.explosion_reason = ExplosionReason::TimeLimit;
    Ok(
        PresaleExplosionTriggered {
            round_id: explosion.round_id,
            reason: ExplosionReason::TimeLimit,
            revealed_cap: None,
        },
    )
}

/// Whichever trigger fires first is final. Once a reveal has succeeded, the
/// deadline trigger fails on the resulting state with `AlreadyExploded`, a
/// state error, at whatever time it is tried; so does a second reveal.
pub proof fn lemma_reveal_is_final(
    explosion: PresaleExplosion,
    revealed_cap: u64,
    digest: Seq<u8>,
    now: i64,
    later: i64,
    other_cap: u64,
    other_digest: Seq<u8>,
)
    requires
        reveal_outcome(explosion, revealed_cap, digest, now) is Ok,
    ensures
        deadline_outcome(reveal_outcome(explosion, revealed_cap, digest, now)->Ok_0.0, later)
            == Err::<(PresaleExplosion, PresaleExplosionTriggered), BoomError>(
            BoomError::AlreadyExploded,
        ),
        reveal_outcome(
            reveal_outcome(explosion, revealed_cap, digest, now)->Ok_0.0,
            other_cap,
            other_digest,
            later,
        ) == Err::<(PresaleExplosion, PresaleExplosionTriggered), BoomError>(
            BoomError::AlreadyExploded,
        ),
        BoomError::AlreadyExploded.spec_class() == ErrorClass::State,
{
}

/// Whichever trigger fires first is final. Once the deadline trigger has
/// succeeded, a reveal fails on the resulting state with `AlreadyExploded`, a
/// state error, whatever is revealed; so does a second deadline trigger.
pub proof fn lemma_deadline_is_final(
    explosion: PresaleExplosion,
    now: i64,
    later: i64,
    revealed_cap: u64,
    digest: Seq<u8>,
)
    requires
        deadline_outcome(explosion, now) is Ok,
    ensures
        reveal_outcome(deadline_outcome(explosion, now)->Ok_0.0, revealed_cap, digest, later)
            == Err::<(PresaleExplosion, PresaleExplosionTriggered), BoomError>(
            BoomError::AlreadyExploded,
        ),
        deadline_outcome(deadline_outcome(explosion, now)->Ok_0.0, later) == Err::<
            (PresaleExplosion, PresaleExplosionTriggered),
            BoomError,
        >(BoomError::AlreadyExploded),
        BoomError::AlreadyExploded.spec_class() == ErrorClass::State,
{
}

// ---------------------------------------------------------------------------
// Unwind
// ---------------------------------------------------------------------------

/// What `unwind_lp` does to the detonation state and to the payout slot.
pub open spec fn unwind_outcome(
    presale: PresaleRound,
    authority: Address,
    explosion: PresaleExplosion,
    payout_slot: Option<PayoutPool>,
    pool: Pool,
    token_vault: Address,
    mint: Address,
    vault_balance: u64,
    mint_supply: u64,
    total_sol_extracted: u64,
    bump: u8,
) -> Result<(PresaleExplosion, PayoutPool, LpUnwound), BoomError> {
    if !explosion.is_exploded {
        Err(BoomError::NotExploded)
    } else if explosion.total_sol_for_payout != 0 || payout_slot is Some {
        Err(BoomError::LpAlreadyUnwound)
    } else if authority != presale.authority {
        Err(BoomError::Unauthorized)
    } else if explosion.round_id != presale.round_id || pool.round_id != presale.round_id {
        Err(BoomError::RoundMismatch)
    } else if token_vault != pool.token_vault {
        Err(BoomError::InvalidVault)
    } else if mint != pool.mint {
        Err(BoomError::InvalidMint)
    } else if total_sol_extracted == 0 {
        Err(BoomError::ZeroAmount)
    } else if vault_balance > mint_supply {
        Err(BoomError::Overflow)
    } else {
        let remaining = (mint_supply - vault_balance) as u64;
        Ok(
            (
                PresaleExplosion { total_sol_for_payout: total_sol_extracted, ..explosion },
                PayoutPool {
                    round_id: explosion.round_id,
                    total_sol: total_sol_extracted,
                    remaining_supply: remaining,
                    claimed_count: 0,
                    bump,
                },
                LpUnwound {
                    round_id: explosion.round_id,
                    total_sol: total_sol_extracted,
                    remaining_supply: remaining,
                },
            ),
        )
    }
}

/// Unwinds the pool of a detonated round, once. The whole of `vault_balance`,
/// the balance observed in the pool's asset vault, is to be burned; what is
/// left of `mint_supply`, the supply observed before that burn, is frozen as
/// the denominator of every later claim, and `total_sol_extracted` is recorded
/// as the amount to distribute. It may not be zero: the recorded amount is
/// what tells an unwound round from one that is not. The payout pool is
/// created in `payout_slot`, which must be empty.
///
/// `total_sol_extracted` is taken as reported: nothing here can check it
/// against the liquidity that was really removed. Only the round's authority
/// is let through.
pub fn unwind_lp(
    presale: &PresaleRound,
    authority: &Address,
    explosion: &mut PresaleExplosion,
    payout_slot: &mut Option<PayoutPool>,
    pool: &Pool,
    token_vault: &Address,
    mint: &Address,
    vault_balance: u64,
    mint_supply: u64,
    total_sol_extracted: u64,
    bump: u8,
) -> (r: Result<LpUnwound, BoomError>)
    ensures
        match unwind_outcome(
            *presale,
            *authority,
            *old(explosion),
            *old(payout_slot),
            *pool,
            *token_vault,
            *mint,
            vault_balance,
            mint_supply,
            total_sol_extracted,
            bump,
        ) {
            Ok((next, payout, event)) => r == Ok::<LpUnwound, BoomError>(event)
                && *final(explosion) == next && *final(payout_slot) == Some(payout),
            Err(e) => r == Err::<LpUnwound, BoomError>(e) && *final(explosion) == *old(explosion)
                && *final(payout_slot) == *old(payout_slot),
        },
        r is Ok ==> final(explosion).total_sol_for_payout > 0,
        old(explosion).wf() ==> final(explosion).wf(),
{
    if !explosion.is_exploded {
        return Err(BoomError::NotExploded);
    }
    if explosion.total_sol_for_payout != 0 || payout_slot.is_some() {
        return Err(BoomError::LpAlreadyUnwound);
    }
    if !authority.same(&presale.authority) {
        return Err(BoomError::Unauthorized);
    }
    if explosion.round_id != presale.round_id || pool.round_id != presale.round_id {
        return Err(BoomError::RoundMismatch);
    }
    if !token_vault.same(&pool.token_vault) {
        return Err(BoomError::InvalidVault);
    }
    if !mint.same(&pool.mint) {
        return Err(BoomError::InvalidMint);
    }
    if total_sol_extracted == 0 {
        return Err(BoomError::ZeroAmount);
    }
    let remaining: u64 = match mint_supply.checked_sub(vault_balance) {
        Some(left) => left,
        None => {
            return Err(BoomError::Overflow);
        },
    };
    explosion.total_sol_for_payout = total_sol_extracted;
    *payout_slot = Some(
        PayoutPool {
            round_id: explosion.round_id,
            total_sol: total_sol_extracted,
            remaining_supply: remaining,
            claimed_count: 0,
            bump,
        },
    );
    Ok(
        LpUnwound {
            round_id: explosion.round_id,
            total_sol: total_sol_extracted,
            remaining_supply: remaining,
        },
    )
}

/// An unwind happens once: after one has succeeded, any further attempt on the
/// resulting state fails with `LpAlreadyUnwound`, a state error, whatever slot
/// it is given and whatever it reports.
pub proof fn lemma_unwind_is_one_shot(
    presale: PresaleRound,
    authority: Address,
    explosion: PresaleExplosion,
    payout_slot: Option<PayoutPool>,
    pool: Pool,
    token_vault: Address,
    mint: Address,
    vault_balance: u64,
    mint_supply: u64,
    total_sol_extracted: u64,
    bump: u8,
    second_slot: Option<PayoutPool>,
    second_balance: u64,
    second_supply: u64,
    second_total: u64,
)
    requires
        unwind_outcome(
            presale,
            authority,
            explosion,
            payout_slot,
            pool,
            token_vault,
            mint,
            vault_balance,
            mint_supply,
            total_sol_extracted,
            bump,
        ) is Ok,
    ensures
        ({
            let first = unwind_outcome(
                presale,
                authority,
                explosion,
                payout_slot,
                pool,
                token_vault,
                mint,
                vault_balance,
                mint_supply,
                total_sol_extracted,
                bump,
            )->Ok_0;
            &&& first.0.total_sol_for_payout == total_sol_extracted
            &&& first.0.total_sol_for_payout > 0
            &&& unwind_outcome(
                presale,
                authority,
                first.0,
                second_slot,
                pool,
                token_vault,
                mint,
                second_balance,
                second_supply,
                second_total,
                bump,
            ) == Err::<(PresaleExplosion, PayoutPool, LpUnwound), BoomError>(
                BoomError::LpAlreadyUnwound,
            )
        }),
        BoomError::LpAlreadyUnwound.spec_class() == ErrorClass::State,
{
}

/// A round's commitment is immutable: no operation of the lifecycle changes
/// the digest that the detonation state was opened with.
pub proof fn lemma_round_commitment_is_immutable(
    explosion: PresaleExplosion,
    presale: PresaleRound,
    authority: Address,
    lp_info: LpInfo,
    presale_token: PresaleToken,
    price: PriceReading,
    payout_slot: Option<PayoutPool>,
    pool: Pool,
    token_vault: Address,
    mint: Address,
    duration_seconds: i64,
    revealed_cap: u64,
    digest: Seq<u8>,
    vault_balance: u64,
    mint_supply: u64,
    total_sol_extracted: u64,
    now: i64,
    bump: u8,
)
    ensures
        start_explosion_timer_outcome(explosion, lp_info, duration_seconds, now) matches Ok(
            (next, _),
        ) ==> next.cap_hash == explosion.cap_hash,
        reveal_outcome(explosion, revealed_cap, digest, now) matches Ok((next, _))
            ==> next.cap_hash == explosion.cap_hash,
        priced_reveal_outcome(
            explosion,
            presale_token,
            lp_info,
            price,
            revealed_cap,
            digest,
            now,
        ) matches Ok((next, _, _)) ==> next.cap_hash == explosion.cap_hash,
        deadline_outcome(explosion, now) matches Ok((next, _)) ==> next.cap_hash
            == explosion.cap_hash,
        unwind_outcome(
            presale,
            authority,
            explosion,
            payout_slot,
            pool,
            token_vault,
            mint,
            vault_balance,
            mint_supply,
            total_sol_extracted,
            bump,
        ) matches Ok((next, _, _)) ==> next.cap_hash == explosion.cap_hash,
{
}

// ---------------------------------------------------------------------------
// Claims
// ---------------------------------------------------------------------------

/// What `claim_explosion_payout` does to the payout pool.
pub open spec fn claim_outcome(
    explosion: PresaleExplosion,
    payout_pool: PayoutPool,
    user: Address,
    user_tokens: u64,
) -> Result<(PayoutPool, PayoutClaimed), BoomError> {
    let share = payout_share(
        user_tokens as int,
        payout_pool.total_sol as int,
        payout_pool.remaining_supply as int,
    );
    if !explosion.is_exploded {
        Err(BoomError::NotExploded)
    } else if payout_pool.total_sol == 0 {
        Err(BoomError::LpNotUnwound)
    } else if payout_pool.round_id != explosion.round_id {
        Err(BoomError::RoundMismatch)
    } else if user_tokens == 0 {
        Err(BoomError::NoTokensToClaim)
    } else if payout_pool.remaining_supply == 0 || share > u64::MAX {
        Err(BoomError::Overflow)
    } else if share == 0 {
        Err(BoomError::PayoutTooSmall)
    } else if payout_pool.claimed_count == u32::MAX {
        Err(BoomError::Overflow)
    } else {
        Ok(
            (
                PayoutPool {
                    claimed_count: (payout_pool.claimed_count + 1) as u32,
                    ..payout_pool
                },
                PayoutClaimed { round_id: explosion.round_id, user, amount: share as u64 },
            ),
        )
    }
}

/// Settles the claim of a holder whose observed balance is `user_tokens`: the
/// payout is `floor(user_tokens * total / remaining_supply)`, against the
/// supply frozen at the unwind. A payout of zero is rejected, not executed as
/// an empty transfer. On success the caller releases `amount` of currency to
/// `user` and burns the whole of `user_tokens`.
pub fn claim_explosion_payout(
    explosion: &PresaleExplosion,
    payout_pool: &mut PayoutPool,
    user: &Address,
    user_tokens: u64,
) -> (r: Result<PayoutClaimed, BoomError>)
    ensures
        match claim_outcome(*explosion, *old(payout_pool), *user, user_tokens) {
            Ok((next, event)) => r == Ok::<PayoutClaimed, BoomError>(event) && *final(payout_pool)
                == next,
            Err(e) => r == Err::<PayoutClaimed, BoomError>(e)
                && *final(payout_pool) == *old(payout_pool),
        },
        r matches Ok(event) ==> 0 < event.amount,
        r matches Ok(event) ==> (user_tokens <= old(payout_pool).remaining_supply
            ==> event.amount <= old(payout_pool).total_sol),
{
    if !explosion.is_exploded {
        return Err(BoomError::NotExploded);
    }
    if payout_pool.total_sol == 0 {
        return Err(BoomError::LpNotUnwound);
    }
    if payout_pool.round_id != explosion.round_id {
        return Err(BoomError::RoundMismatch);
    }
    if user_tokens == 0 {
        return Err(BoomError::NoTokensToClaim);
    }
    let amount: u64 = compute_payout_share(
        user_tokens,
        payout_pool.total_sol,
        payout_pool.remaining_supply,
    )?;
    if amount == 0 {
        return Err(BoomError::PayoutTooSmall);
    }
    let count: u32 = match payout_pool.claimed_count.checked_add(1) {
        Some(c) => c,
        None => {
            return Err(BoomError::Overflow);
        },
    };
    proof {
        if user_tokens <= payout_pool.remaining_supply {
            lemma_single_share_within_total(
                user_tokens,
                payout_pool.total_sol,
                payout_pool.remaining_supply,
            );
        }
    }
    payout_pool.claimed_count = count;
    Ok(PayoutClaimed { round_id: explosion.round_id, user: *user, amount })
}

proof fn lemma_single_share_within_total(balance: u64, total: u64, supply: u64)
    requires
        0 < supply,
        balance <= supply,
    ensures
        payout_share(balance as int, total as int, supply as int) <= total,
{
    let one = seq![balance];
    assert(one.drop_last() =~= Seq::<u64>::empty());
    assert(total_balance(one.drop_last()) == 0);
    assert(total_paid(one.drop_last(), total as int, supply as int) == 0);
    assert(one.last() == balance);
    lemma_shares_within_total(one, total as int, supply as int);
}

/// The amount that a claim with this balance is paid: the share where the
/// claim succeeds, nothing where it is rejected.
pub open spec fn claim_amount(
    explosion: PresaleExplosion,
    payout_pool: PayoutPool,
    balance: u64,
) -> int {
    match claim_outcome(explosion, payout_pool, arbitrary::<Address>(), balance) {
        Ok((_, event)) => event.amount as int,
        Err(_) => 0,
    }
}

/// The amounts paid to a run of claims, one after another, added up.
pub open spec fn claims_paid(
    explosion: PresaleExplosion,
    payout_pool: PayoutPool,
    balances: Seq<u64>,
) -> int
    decreases balances.len(),
{
    if balances.len() == 0 {
        0
    } else {
        claims_paid(explosion, payout_pool, balances.drop_last()) + claim_amount(
            explosion,
            payout_pool_after(explosion, payout_pool, balances.drop_last()),
            balances.last(),
        )
    }
}

/// The payout pool as a run of claims leaves it.
pub open spec fn payout_pool_after(
    explosion: PresaleExplosion,
    payout_pool: PayoutPool,
    balances: Seq<u64>,
) -> PayoutPool
    decreases balances.len(),
{
    if balances.len() == 0 {
        payout_pool
    } else {
        let before = payout_pool_after(explosion, payout_pool, balances.drop_last());
        match claim_outcome(explosion, before, arbitrary::<Address>(), balances.last()) {
            Ok((next, _)) => next,
            Err(_) => before,
        }
    }
}

/// No payout pool pays out more than it recorded. Take any run of claims
/// against one pool, each with the balance its holder had when claiming. Every
/// claim burns the balance it is paid for, so the balances together cannot
/// exceed the supply frozen at the unwind; then the amounts of the claims that
/// succeed add up to at most the pool's total. What rounding withholds stays in
/// the vault.
pub proof fn lemma_payouts_never_exceed_total(
    explosion: PresaleExplosion,
    payout_pool: PayoutPool,
    balances: Seq<u64>,
)
    requires
        total_balance(balances) <= payout_pool.remaining_supply,
    ensures
        0 <= claims_paid(explosion, payout_pool, balances) <= payout_pool.total_sol,
{
    if payout_pool.remaining_supply == 0 {
        lemma_nothing_paid_without_supply(explosion, payout_pool, balances);
    } else {
        lemma_claims_at_most_shares(explosion, payout_pool, balances);
        lemma_shares_within_total(
            balances,
            payout_pool.total_sol as int,
            payout_pool.remaining_supply as int,
        );
    }
}

proof fn lemma_pool_terms_are_frozen(
    explosion: PresaleExplosion,
    payout_pool: PayoutPool,
    balances: Seq<u64>,
)
    ensures
        payout_pool_after(explosion, payout_pool, balances).total_sol == payout_pool.total_sol,
        payout_pool_after(explosion, payout_pool, balances).remaining_supply
            == payout_pool.remaining_supply,
    decreases balances.len(),
{
    if balances.len() > 0 {
        lemma_pool_terms_are_frozen(explosion, payout_pool, balances.drop_last());
    }
}

proof fn lemma_nothing_paid_without_supply(
    explosion: PresaleExplosion,
    payout_pool: PayoutPool,
    balances: Seq<u64>,
)
    requires
        payout_pool.remaining_supply == 0,
    ensures
        claims_paid(explosion, payout_pool, balances) == 0,
    decreases balances.len(),
{
    if balances.len() > 0 {
        lemma_nothing_paid_without_supply(explosion, payout_pool, balances.drop_last());
        lemma_pool_terms_are_frozen(explosion, payout_pool, balances.drop_last());
    }
}

proof fn lemma_claims_at_most_shares(
    explosion: PresaleExplosion,
    payout_pool: PayoutPool,
    balances: Seq<u64>,
)
    requires
        payout_pool.remaining_supply > 0,
    ensures
        0 <= claims_paid(explosion, payout_pool, balances) <= total_paid(
            balances,
            payout_pool.total_sol as int,
            payout_pool.remaining_supply as int,
        ),
    decreases balances.len(),
{
    if balances.len() > 0 {
        let rest = balances.drop_last();
        lemma_claims_at_most_shares(explosion, payout_pool, rest);
        lemma_pool_terms_are_frozen(explosion, payout_pool, rest);
        let b = balances.last();
        let total = payout_pool.total_sol as int;
        let supply = payout_pool.remaining_supply as int;
        assert(b * total >= 0) by (nonlinear_arith)
            requires
                b >= 0,
                total >= 0,
        ;
        crate::math::lemma_quotient_at_least(b * total, supply, 0);
    }
}

/// A holder is paid once. A successful claim is paid for the whole balance and
/// that balance is burned; the same holder, now with nothing, is rejected with
/// `NoTokensToClaim` when the pool is still open to claims.
pub proof fn lemma_empty_balance_is_rejected(
    explosion: PresaleExplosion,
    payout_pool: PayoutPool,
    user: Address,
)
    requires
        explosion.is_exploded,
        payout_pool.total_sol > 0,
        payout_pool.round_id == explosion.round_id,
    ensures
        claim_outcome(explosion, payout_pool, user, 0) == Err::<
            (PayoutPool, PayoutClaimed),
            BoomError,
        >(BoomError::NoTokensToClaim),
        claim_amount(explosion, payout_pool, 0) == 0,
{
}

} // verus!
