//! The funding round: a window in which deposits are collected, its
//! finalization, the marking of winners, and what each depositor may take
//! afterwards. A deposit is settled once: either it is refunded or its
//! allocation is claimed, never both.

use crate::address::Address;
use crate::errors::{BoomError, ErrorClass};
use crate::events::{
    DepositMade, LpRegistered, PresaleFinalized, PresaleStarted, PresaleTokenCreated,
    RefundClaimed, WinnerClaimed, WinnerMarked,
};
use crate::state::{LpInfo, PresaleExplosion, PresaleRound, PresaleToken, UserDeposit};
use vstd::prelude::*;

verus! {

/// The decimal places of every asset issued for a round.
pub const TOKEN_DECIMALS: u8 = 9;

// ---------------------------------------------------------------------------
// The window
// ---------------------------------------------------------------------------

/// What `start_presale` does.
pub open spec fn start_presale_outcome(
    authority: Address,
    round_id: u64,
    cooldown_duration: i64,
    lottery_spots: u32,
    min_deposit: u64,
    max_deposit: u64,
    now: i64,
    bump: u8,
) -> Result<(PresaleRound, PresaleStarted), BoomError> {
    if now + cooldown_duration > i64::MAX || now + cooldown_duration < i64::MIN {
        Err(BoomError::Overflow)
    } else {
        let end_time = (now + cooldown_duration) as i64;
        Ok(
            (
                PresaleRound {
                    authority,
                    round_id,
                    start_time: now,
                    end_time,
                    lottery_spots,
                    min_deposit,
                    max_deposit,
                    total_deposited: 0,
                    total_depositors: 0,
                    is_finalized: false,
                    bump,
                },
                PresaleStarted { round_id, end_time, lottery_spots, min_deposit, max_deposit },
            ),
        )
    }
}

/// Opens round `round_id` for deposits from `now` until `now +
/// cooldown_duration`.
pub fn start_presale(
    authority: Address,
    round_id: u64,
    cooldown_duration: i64,
    lottery_spots: u32,
    min_deposit: u64,
    max_deposit: u64,
    now: i64,
    bump: u8,
) -> (r: Result<(PresaleRound, PresaleStarted), BoomError>)
    ensures
        r == start_presale_outcome(
            authority,
            round_id,
            cooldown_duration,
            lottery_spots,
            min_deposit,
            max_deposit,
            now,
            bump,
        ),
{
    let end_time: i64 = match now.checked_add(cooldown_duration) {
        Some(t) => t,
        None => {
            return Err(BoomError::Overflow);
        },
    };
    Ok(
        (
            PresaleRound {
                authority,
                round_id,
                start_time: now,
                end_time,
                lottery_spots,
                min_deposit,
                max_deposit,
                total_deposited: 0,
                total_depositors: 0,
                is_finalized: false,
                bump,
            },
            PresaleStarted { round_id, end_time, lottery_spots, min_deposit, max_deposit },
        ),
    )
}

/// What a depositor has in the round so far.
pub open spec fn deposited_so_far(slot: Option<UserDeposit>) -> u64 {
    match slot {
        Some(d) => d.amount,
        None => 0,
    }
}

/// What `deposit_presale` does to the round and to the depositor's record.
pub open spec fn deposit_outcome(
    presale: PresaleRound,
    slot: Option<UserDeposit>,
    depositor: Address,
    amount: u64,
    now: i64,
    bump: u8,
) -> Result<(PresaleRound, UserDeposit, DepositMade), BoomError> {
    let before = deposited_so_far(slot);
    if slot matches Some(d) && (d.depositor != depositor || d.round_id != presale.round_id) {
        Err(BoomError::Unauthorized)
    } else if presale.is_finalized {
        Err(BoomError::PresaleFinalized)
    } else if now >= presale.end_time {
        Err(BoomError::PresaleEnded)
    } else if amount < presale.min_deposit {
        Err(BoomError::DepositTooSmall)
    } else if amount > presale.max_deposit {
        Err(BoomError::DepositTooLarge)
    } else if before + amount > u64::MAX {
        Err(BoomError::Overflow)
    } else if before + amount > presale.max_deposit {
        Err(BoomError::DepositTooLarge)
    } else if presale.total_deposited + amount > u64::MAX || (before == 0
        && presale.total_depositors == u32::MAX) {
        Err(BoomError::Overflow)
    } else {
        let total = (before + amount) as u64;
        Ok(
            (
                PresaleRound {
                    total_deposited: (presale.total_deposited + amount) as u64,
                    total_depositors: if before == 0 {
                        (presale.total_depositors + 1) as u32
                    } else {
                        presale.total_depositors
                    },
                    ..presale
                },
                UserDeposit {
                    depositor,
                    round_id: presale.round_id,
                    amount: total,
                    deposit_time: now,
                    is_winner: false,
                    claimed: false,
                    bump,
                },
                DepositMade { round_id: presale.round_id, depositor, amount, total_amount: total },
            ),
        )
    }
}

/// Takes a deposit of `amount` into an open round. `slot` holds the
/// depositor's record where there is one; the first deposit creates it and a
/// later one tops it up. Each deposit must lie within the round's bounds and so
/// must the depositor's total. On success the caller moves `amount` from the
/// depositor to the round.
pub fn deposit_presale(
    presale: &mut PresaleRound,
    slot: &mut Option<UserDeposit>,
    depositor: &Address,
    amount: u64,
    now: i64,
    bump: u8,
) -> (r: Result<DepositMade, BoomError>)
    ensures
        match deposit_outcome(*old(presale), *old(slot), *depositor, amount, now, bump) {
            Ok((next, record, event)) => r == Ok::<DepositMade, BoomError>(event) && *final(presale)
                == next && *final(slot) == Some(record),
            Err(e) => r == Err::<DepositMade, BoomError>(e) && *final(presale) == *old(presale)
                && *final(slot) == *old(slot),
        },
{
    let before: u64 = match slot {
        Some(d) => {
            if !d.depositor.same(depositor) || d.round_id != presale.round_id {
                return Err(BoomError::Unauthorized);
            }
            d.amount
        },
        None => 0,
    };
    if presale.is_finalized {
        return Err(BoomError::PresaleFinalized);
    }
    if now >= presale.end_time {
        return Err(BoomError::PresaleEnded);
    }
    if amount < presale.min_deposit {
        return Err(BoomError::DepositTooSmall);
    }
    if amount > presale.max_deposit {
        return Err(BoomError::DepositTooLarge);
    }
    let total: u64 = match before.checked_add(amount) {
        Some(t) => t,
        None => {
            return Err(BoomError::Overflow);
        },
    };
    if total > presale.max_deposit {
        return Err(BoomError::DepositTooLarge);
    }
    let collected: u64 = match presale.total_deposited.checked_add(amount) {
        Some(c) => c,
        None => {
            return Err(BoomError::Overflow);
        },
    };
    let depositors: u32 = if before == 0 {
        match presale.total_depositors.checked_add(1) {
            Some(n) => n,
            None => {
                return Err(BoomError::Overflow);
            },
        }
    } else {
        presale.total_depositors
    };
    presale.total_deposited = collected;
    presale.total_depositors = depositors;
    *slot = Some(
        UserDeposit {
            depositor: *depositor,
            round_id: presale.round_id,
            amount: total,
            deposit_time: now,
            is_winner: false,
            claimed: false,
            bump,
        },
    );
    Ok(DepositMade { round_id: presale.round_id, depositor: *depositor, amount, total_amount: total })
}

/// What `end_presale_and_lottery` does.
pub open spec fn end_presale_outcome(
    presale: PresaleRound,
    authority: Address,
    winner_indexes: Seq<u32>,
    now: i64,
) -> Result<(PresaleRound, PresaleFinalized), BoomError> {
    if presale.is_finalized {
        Err(BoomError::PresaleFinalized)
    } else if authority != presale.authority {
        Err(BoomError::Unauthorized)
    } else if now < presale.end_time {
        Err(BoomError::PresaleNotEnded)
    } else if winner_indexes.len() > presale.lottery_spots {
        Err(BoomError::TooManyWinners)
    } else {
        Ok(
            (
                PresaleRound { is_finalized: true, ..presale },
                PresaleFinalized {
                    round_id: presale.round_id,
                    total_deposited: presale.total_deposited,
                    total_depositors: presale.total_depositors,
                    winners_count: winner_indexes.len() as u32,
                },
            ),
        )
    }
}

/// Finalizes a round whose window has closed, once. The authority names the
/// winners it drew; there may be no more of them than the round has spots.
pub fn end_presale_and_lottery(
    presale: &mut PresaleRound,
    authority: &Address,
    winner_indexes: &Vec<u32>,
    now: i64,
) -> (r: Result<PresaleFinalized, BoomError>)
    ensures
        match end_presale_outcome(*old(presale), *authority, winner_indexes@, now) {
            Ok((next, event)) => r == Ok::<PresaleFinalized, BoomError>(event) && *final(presale)
                == next,
            Err(e) => r == Err::<PresaleFinalized, BoomError>(e)
                && *final(presale) == *old(presale),
        },
{
    if presale.is_finalized {
        return Err(BoomError::PresaleFinalized);
    }
    if !authority.same(&presale.authority) {
        return Err(BoomError::Unauthorized);
    }
    if now < presale.end_time {
        return Err(BoomError::PresaleNotEnded);
    }
    if winner_indexes.len() > presale.lottery_spots as usize {
        return Err(BoomError::TooManyWinners);
    }
    presale.is_finalized = true;
    Ok(
        PresaleFinalized {
            round_id: presale.round_id,
            total_deposited: presale.total_deposited,
            total_depositors: presale.total_depositors,
            winners_count: winner_indexes.len() as u32,
        },
    )
}

// ---------------------------------------------------------------------------
// Winners, refunds, allocations
// ---------------------------------------------------------------------------

/// What `mark_winner` does.
pub open spec fn mark_winner_outcome(
    presale: PresaleRound,
    authority: Address,
    user_deposit: UserDeposit,
) -> Result<(UserDeposit, WinnerMarked), BoomError> {
    if authority != presale.authority {
        Err(BoomError::Unauthorized)
    } else if user_deposit.round_id != presale.round_id {
        Err(BoomError::RoundMismatch)
    } else if !presale.is_finalized {
        Err(BoomError::PresaleNotFinalized)
    } else if user_deposit.is_winner {
        Err(BoomError::AlreadyWinner)
    } else {
        Ok(
            (
                UserDeposit { is_winner: true, ..user_deposit },
                WinnerMarked {
                    round_id: presale.round_id,
                    winner: user_deposit.depositor,
                    amount: user_deposit.amount,
                },
            ),
        )
    }
}

/// Marks a deposit of a finalized round as a winner, once. Only the round's
/// authority may.
pub fn mark_winner(
    presale: &PresaleRound,
    authority: &Address,
    user_deposit: &mut UserDeposit,
) -> (r: Result<WinnerMarked, BoomError>)
    ensures
        match mark_winner_outcome(*presale, *authority, *old(user_deposit)) {
            Ok((next, event)) => r == Ok::<WinnerMarked, BoomError>(event) && *final(user_deposit)
                == next,
            Err(e) => r == Err::<WinnerMarked, BoomError>(e)
                && *final(user_deposit) == *old(user_deposit),
        },
{
    if !authority.same(&presale.authority) {
        return Err(BoomError::Unauthorized);
    }
    if user_deposit.round_id != presale.round_id {
        return Err(BoomError::RoundMismatch);
    }
    if !presale.is_finalized {
        return Err(BoomError::PresaleNotFinalized);
    }
    if user_deposit.is_winner {
        return Err(BoomError::AlreadyWinner);
    }
    user_deposit.is_winner = true;
    Ok(
        WinnerMarked {
            round_id: presale.round_id,
            winner: user_deposit.depositor,
            amount: user_deposit.amount,
        },
    )
}

/// What `claim_refund` does.
pub open spec fn claim_refund_outcome(
    presale: PresaleRound,
    explosion: PresaleExplosion,
    user_deposit: UserDeposit,
    depositor: Address,
) -> Result<(UserDeposit, RefundClaimed), BoomError> {
    if user_deposit.claimed {
        Err(BoomError::AlreadyClaimed)
    } else if user_deposit.depositor != depositor {
        Err(BoomError::Unauthorized)
    } else if user_deposit.round_id != presale.round_id || explosion.round_id
        != presale.round_id {
        Err(BoomError::RoundMismatch)
    } else if !presale.is_finalized {
        Err(BoomError::PresaleNotFinalized)
    } else if explosion.explosion_deadline <= 0 {
        Err(BoomError::TradingNotStarted)
    } else if user_deposit.is_winner {
        Err(BoomError::WinnerCannotRefund)
    } else if user_deposit.amount == 0 {
        Err(BoomError::NothingToRefund)
    } else {
        Ok(
            (
                UserDeposit { claimed: true, ..user_deposit },
                RefundClaimed {
                    round_id: presale.round_id,
                    depositor,
                    amount: user_deposit.amount,
                },
            ),
        )
    }
}

/// Refunds the deposit of one who did not win, once trading has started. On
/// success the caller returns `amount` from the round to the depositor.
pub fn claim_refund(
    presale: &PresaleRound,
    explosion: &PresaleExplosion,
    user_deposit: &mut UserDeposit,
    depositor: &Address,
) -> (r: Result<RefundClaimed, BoomError>)
    ensures
        match claim_refund_outcome(*presale, *explosion, *old(user_deposit), *depositor) {
            Ok((next, event)) => r == Ok::<RefundClaimed, BoomError>(event) && *final(user_deposit)
                == next,
            Err(e) => r == Err::<RefundClaimed, BoomError>(e)
                && *final(user_deposit) == *old(user_deposit),
        },
{
    if user_deposit.claimed {
        return Err(BoomError::AlreadyClaimed);
    }
    if !user_deposit.depositor.same(depositor) {
        return Err(BoomError::Unauthorized);
    }
    if user_deposit.round_id != presale.round_id || explosion.round_id != presale.round_id {
        return Err(BoomError::RoundMismatch);
    }
    if !presale.is_finalized {
        return Err(BoomError::PresaleNotFinalized);
    }
    if explosion.explosion_deadline <= 0 {
        return Err(BoomError::TradingNotStarted);
    }
    if user_deposit.is_winner {
        return Err(BoomError::WinnerCannotRefund);
    }
    if user_deposit.amount == 0 {
        return Err(BoomError::NothingToRefund);
    }
    user_deposit.claimed = true;
    Ok(
        RefundClaimed {
            round_id: presale.round_id,
            depositor: *depositor,
            amount: user_deposit.amount,
        },
    )
}

/// What `claim_winner_tokens` does.
pub open spec fn claim_winner_tokens_outcome(
    presale: PresaleRound,
    presale_token: PresaleToken,
    explosion: PresaleExplosion,
    user_deposit: UserDeposit,
    winner: Address,
    mint: Address,
) -> Result<(UserDeposit, WinnerClaimed), BoomError> {
    if user_deposit.claimed {
        Err(BoomError::AlreadyClaimed)
    } else if presale_token.mint != mint {
        Err(BoomError::InvalidMint)
    } else if user_deposit.depositor != winner {
        Err(BoomError::NotAWinner)
    } else if user_deposit.round_id != presale.round_id || explosion.round_id != presale.round_id
        || presale_token.round_id != presale.round_id {
        Err(BoomError::RoundMismatch)
    } else if !presale.is_finalized {
        Err(BoomError::PresaleNotFinalized)
    } else if explosion.explosion_deadline <= 0 {
        Err(BoomError::TradingNotStarted)
    } else if !user_deposit.is_winner {
        Err(BoomError::NotAWinner)
    } else {
        Ok(
            (
                UserDeposit { claimed: true, ..user_deposit },
                WinnerClaimed {
                    round_id: presale.round_id,
                    winner,
                    deposit_amount: user_deposit.amount,
                    tokens_minted: presale_token.tokens_per_winner,
                },
            ),
        )
    }
}

/// Settles the allocation of a winner, once trading has started. On success
/// the caller issues `tokens_minted` of the round's asset to the winner.
pub fn claim_winner_tokens(
    presale: &PresaleRound,
    presale_token: &PresaleToken,
    explosion: &PresaleExplosion,
    user_deposit: &mut UserDeposit,
    winner: &Address,
    mint: &Address,
) -> (r: Result<WinnerClaimed, BoomError>)
    ensures
        match claim_winner_tokens_outcome(
            *presale,
            *presale_token,
            *explosion,
            *old(user_deposit),
            *winner,
            *mint,
        ) {
            Ok((next, event)) => r == Ok::<WinnerClaimed, BoomError>(event) && *final(user_deposit)
                == next,
            Err(e) => r == Err::<WinnerClaimed, BoomError>(e)
                && *final(user_deposit) == *old(user_deposit),
        },
{
    if user_deposit.claimed {
        return Err(BoomError::AlreadyClaimed);
    }
    if !presale_token.mint.same(mint) {
        return Err(BoomError::InvalidMint);
    }
    if !user_deposit.depositor.same(winner) {
        return Err(BoomError::NotAWinner);
    }
    if user_deposit.round_id != presale.round_id || explosion.round_id != presale.round_id
        || presale_token.round_id != presale.round_id {
        return Err(BoomError::RoundMismatch);
    }
    if !presale.is_finalized {
        return Err(BoomError::PresaleNotFinalized);
    }
    if explosion.explosion_deadline <= 0 {
        return Err(BoomError::TradingNotStarted);
    }
    if !user_deposit.is_winner {
        return Err(BoomError::NotAWinner);
    }
    user_deposit.claimed = true;
    Ok(
        WinnerClaimed {
            round_id: presale.round_id,
            winner: *winner,
            deposit_amount: user_deposit.amount,
            tokens_minted: presale_token.tokens_per_winner,
        },
    )
}

/// A deposit is settled once. After a refund, any claim of an allocation on
/// the same deposit fails with `AlreadyClaimed`, even if the deposit is marked
/// a winner in between; so does a second refund. After an allocation was
/// claimed, any refund fails with `AlreadyClaimed`, and so does a second
/// claim. `AlreadyClaimed` is a state error.
pub proof fn lemma_deposit_is_settled_once(
    presale: PresaleRound,
    presale_token: PresaleToken,
    explosion: PresaleExplosion,
    user_deposit: UserDeposit,
    who: Address,
    mint: Address,
    authority: Address,
)
    ensures
        claim_refund_outcome(presale, explosion, user_deposit, who) matches Ok((refunded, _)) ==> {
            &&& claim_refund_outcome(presale, explosion, refunded, who) == Err::<
                (UserDeposit, RefundClaimed),
                BoomError,
            >(BoomError::AlreadyClaimed)
            &&& claim_winner_tokens_outcome(presale, presale_token, explosion, refunded, who, mint)
                == Err::<(UserDeposit, WinnerClaimed), BoomError>(BoomError::AlreadyClaimed)
            &&& mark_winner_outcome(presale, authority, refunded) matches Ok((marked, _))
                ==> claim_winner_tokens_outcome(
                presale,
                presale_token,
                explosion,
                marked,
                who,
                mint,
            ) == Err::<(UserDeposit, WinnerClaimed), BoomError>(BoomError::AlreadyClaimed)
        },
        claim_winner_tokens_outcome(presale, presale_token, explosion, user_deposit, who, mint)
            matches Ok((claimed, _)) ==> {
            &&& claim_refund_outcome(presale, explosion, claimed, who) == Err::<
                (UserDeposit, RefundClaimed),
                BoomError,
            >(BoomError::AlreadyClaimed)
            &&& claim_winner_tokens_outcome(presale, presale_token, explosion, claimed, who, mint)
                == Err::<(UserDeposit, WinnerClaimed), BoomError>(BoomError::AlreadyClaimed)
        },
        BoomError::AlreadyClaimed.spec_class() == ErrorClass::State,
{
}

// ---------------------------------------------------------------------------
// The asset and the venue of a round
// ---------------------------------------------------------------------------

/// What `create_presale_token` and `register_presale_token` do.
pub open spec fn presale_token_outcome(
    presale: PresaleRound,
    authority: Address,
    mint: Address,
    total_supply: u64,
    tokens_per_winner: u64,
    bump: u8,
) -> Result<(PresaleToken, PresaleTokenCreated), BoomError> {
    if authority != presale.authority {
        Err(BoomError::Unauthorized)
    } else if !presale.is_finalized {
        Err(BoomError::PresaleNotFinalized)
    } else {
        Ok(
            (
                PresaleToken {
                    round_id: presale.round_id,
                    mint,
                    total_supply,
                    tokens_per_winner,
                    bump,
                },
                PresaleTokenCreated {
                    round_id: presale.round_id,
                    mint,
                    total_supply,
                    tokens_per_winner,
                },
            ),
        )
    }
}

/// Records the asset of a finalized round, which the caller issues under
/// `mint` with `TOKEN_DECIMALS` decimal places. Only the round's authority may.
pub fn create_presale_token(
    presale: &PresaleRound,
    authority: &Address,
    mint: Address,
    total_supply: u64,
    tokens_per_winner: u64,
    bump: u8,
) -> (r: Result<(PresaleToken, PresaleTokenCreated), BoomError>)
    ensures
        r == presale_token_outcome(
            *presale,
            *authority,
            mint,
            total_supply,
            tokens_per_winner,
            bump,
        ),
{
    if !authority.same(&presale.authority) {
        return Err(BoomError::Unauthorized);
    }
    if !presale.is_finalized {
        return Err(BoomError::PresaleNotFinalized);
    }
    Ok(
        (
            PresaleToken { round_id: presale.round_id, mint, total_supply, tokens_per_winner, bump },
            PresaleTokenCreated {
                round_id: presale.round_id,
                mint,
                total_supply,
                tokens_per_winner,
            },
        ),
    )
}

/// Records as the asset of a finalized round one that was issued elsewhere,
/// with the transfer gate attached. Only the round's authority may.
pub fn register_presale_token(
    presale: &PresaleRound,
    authority: &Address,
    mint: Address,
    total_supply: u64,
    tokens_per_winner: u64,
    bump: u8,
) -> (r: Result<(PresaleToken, PresaleTokenCreated), BoomError>)
    ensures
        r == presale_token_outcome(
            *presale,
            *authority,
            mint,
            total_supply,
            tokens_per_winner,
            bump,
        ),
{
    create_presale_token(presale, authority, mint, total_supply, tokens_per_winner, bump)
}

/// What `register_lp` does.
pub open spec fn register_lp_outcome(
    presale: PresaleRound,
    authority: Address,
    pool_id: Address,
    lp_mint: Address,
    vault_a: Address,
    vault_b: Address,
    now: i64,
    bump: u8,
) -> Result<(LpInfo, LpRegistered), BoomError> {
    if authority != presale.authority {
        Err(BoomError::Unauthorized)
    } else if !presale.is_finalized {
        Err(BoomError::PresaleNotFinalized)
    } else {
        Ok(
            (
                LpInfo {
                    round_id: presale.round_id,
                    pool_id,
                    lp_mint,
                    vault_a,
                    vault_b,
                    registered_at: now,
                    bump,
                },
                LpRegistered { round_id: presale.round_id, pool_id, lp_mint },
            ),
        )
    }
}

/// Registers the venue where the asset of a finalized round trades. Only the
/// round's authority may.
pub fn register_lp(
    presale: &PresaleRound,
    authority: &Address,
    pool_id: Address,
    lp_mint: Address,
    vault_a: Address,
    vault_b: Address,
    now: i64,
    bump: u8,
) -> (r: Result<(LpInfo, LpRegistered), BoomError>)
    ensures
        r == register_lp_outcome(
            *presale,
            *authority,
            pool_id,
            lp_mint,
            vault_a,
            vault_b,
            now,
            bump,
        ),
{
    if !authority.same(&presale.authority) {
        return Err(BoomError::Unauthorized);
    }
    if !presale.is_finalized {
        return Err(BoomError::PresaleNotFinalized);
    }
    Ok(
        (
            LpInfo {
                round_id: presale.round_id,
                pool_id,
                lp_mint,
                vault_a,
                vault_b,
                registered_at: now,
                bump,
            },
            LpRegistered { round_id: presale.round_id, pool_id, lp_mint },
        ),
    )
}

} // verus!
