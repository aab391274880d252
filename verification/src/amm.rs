//! The constant-product pool: creation from a finalized round, swaps priced
//! with 128-bit intermediates, quotes, and the reconciliation of recorded
//! reserves with the vaults.
//!
//! A swap decides and records in one step. It returns what the caller has to
//! move; when it fails the pool is as it was, so a movement that the ledger
//! refuses is undone by dropping the returned state with it.

use crate::address::Address;
use crate::errors::BoomError;
use crate::events::{PoolCreated, PoolTokensDeposited, SwapExecuted, SwapQuote};
use crate::math::{
    compute_fee_amount, compute_ideal_output, compute_price_impact_bps, compute_swap_output,
    fee_amount, ideal_output, lemma_fraction_order, lemma_round_trip_through_pool,
    lemma_swap_output_bounded, price_impact, swap_denominator, swap_numerator, swap_output,
    MAX_FEE_BPS,
};
use crate::state::{Pool, PresaleRound, PresaleToken};
use vstd::prelude::*;

verus! {

/// The addresses under which a pool and its two vaults are kept.
#[derive(Clone, Copy, Debug, PartialEq, Eq)]
pub struct PoolKeys {
    pub mint: Address,
    pub token_vault: Address,
    pub sol_vault: Address,
    pub bump: u8,
    pub token_vault_bump: u8,
    pub sol_vault_bump: u8,
}

// ---------------------------------------------------------------------------
// Creation
// ---------------------------------------------------------------------------

/// What `create_pool` does.
pub open spec fn create_pool_outcome(
    presale: PresaleRound,
    presale_token: PresaleToken,
    authority: Address,
    pool_slot: Option<Pool>,
    keys: PoolKeys,
    fee_bps: u16,
    presale_lamports: u64,
    rent_exempt_minimum: u64,
    token_vault_balance: u64,
) -> Result<(Pool, PoolCreated), BoomError> {
    if pool_slot is Some {
        Err(BoomError::PoolAlreadyCreated)
    } else if authority != presale.authority {
        Err(BoomError::Unauthorized)
    } else if presale_token.round_id != presale.round_id {
        Err(BoomError::TokenNotCreated)
    } else if presale_token.mint != keys.mint {
        Err(BoomError::InvalidMint)
    } else if !presale.is_finalized {
        Err(BoomError::PresaleNotFinalized)
    } else if fee_bps > MAX_FEE_BPS {
        Err(BoomError::FeeTooHigh)
    } else if presale.total_deposited == 0 {
        Err(BoomError::NoSolForPool)
    } else if presale_lamports < rent_exempt_minimum {
        Err(BoomError::Overflow)
    } else {
        let sol_reserve = (presale_lamports - rent_exempt_minimum) as u64;
        Ok(
            (
                Pool {
                    round_id: presale.round_id,
                    mint: keys.mint,
                    token_vault: keys.token_vault,
                    sol_vault: keys.sol_vault,
                    sol_reserve,
                    token_reserve: token_vault_balance,
                    fee_bps,
                    total_volume: 0,
                    total_fees: 0,
                    bump: keys.bump,
                    token_vault_bump: keys.token_vault_bump,
                    sol_vault_bump: keys.sol_vault_bump,
                },
                PoolCreated {
                    round_id: presale.round_id,
                    mint: keys.mint,
                    sol_reserve,
                    token_reserve: token_vault_balance,
                    fee_bps,
                },
            ),
        )
    }
}

/// Creates the pool of a finalized round, once: the pool is created in
/// `pool_slot`, which must be empty. Everything the round holds above
/// `rent_exempt_minimum` becomes the currency reserve, and the caller moves
/// exactly that much into the currency vault. The asset reserve is the balance
/// observed in the asset vault, which may still be empty. The fee may not
/// exceed `MAX_FEE_BPS`.
pub fn create_pool(
    presale: &PresaleRound,
    presale_token: &PresaleToken,
    authority: &Address,
    pool_slot: &mut Option<Pool>,
    keys: &PoolKeys,
    fee_bps: u16,
    presale_lamports: u64,
    rent_exempt_minimum: u64,
    token_vault_balance: u64,
) -> (r: Result<PoolCreated, BoomError>)
    ensures
        match create_pool_outcome(
            *presale,
            *presale_token,
            *authority,
            *old(pool_slot),
            *keys,
            fee_bps,
            presale_lamports,
            rent_exempt_minimum,
            token_vault_balance,
        ) {
            Ok((pool, event)) => r == Ok::<PoolCreated, BoomError>(event) && *final(pool_slot)
                == Some(pool) && pool.wf(),
            Err(e) => r == Err::<PoolCreated, BoomError>(e) && *final(pool_slot) == *old(pool_slot),
        },
{
    if pool_slot.is_some() {
        return Err(BoomError::PoolAlreadyCreated);
    }
    if !authority.same(&presale.authority) {
        return Err(BoomError::Unauthorized);
    }
    if presale_token.round_id != presale.round_id {
        return Err(BoomError::TokenNotCreated);
    }
    if !presale_token.mint.same(&keys.mint) {
        return Err(BoomError::InvalidMint);
    }
    if !presale.is_finalized {
        return Err(BoomError::PresaleNotFinalized);
    }
    if fee_bps > MAX_FEE_BPS {
        return Err(BoomError::FeeTooHigh);
    }
    if presale.total_deposited == 0 {
        return Err(BoomError::NoSolForPool);
    }
    let sol_reserve: u64 = match presale_lamports.checked_sub(rent_exempt_minimum) {
        Some(left) => left,
        None => {
            return Err(BoomError::Overflow);
        },
    };
    *pool_slot = Some(
        Pool {
            round_id: presale.round_id,
            mint: keys.mint,
            token_vault: keys.token_vault,
            sol_vault: keys.sol_vault,
            sol_reserve,
            token_reserve: token_vault_balance,
            fee_bps,
            total_volume: 0,
            total_fees: 0,
            bump: keys.bump,
            token_vault_bump: keys.token_vault_bump,
            sol_vault_bump: keys.sol_vault_bump,
        },
    );
    Ok(
        PoolCreated {
            round_id: presale.round_id,
            mint: keys.mint,
            sol_reserve,
            token_reserve: token_vault_balance,
            fee_bps,
        },
    )
}

/// A pool is created once: after one has been created, any further attempt on
/// the filled slot fails with `PoolAlreadyCreated`, a state error, whoever
/// tries and with whatever terms.
pub proof fn lemma_pool_is_created_once(
    presale: PresaleRound,
    presale_token: PresaleToken,
    authority: Address,
    pool_slot: Option<Pool>,
    keys: PoolKeys,
    fee_bps: u16,
    presale_lamports: u64,
    rent_exempt_minimum: u64,
    token_vault_balance: u64,
    other_authority: Address,
    other_keys: PoolKeys,
    other_fee_bps: u16,
    other_lamports: u64,
    other_balance: u64,
)
    requires
        create_pool_outcome(
            presale,
            presale_token,
            authority,
            pool_slot,
            keys,
            fee_bps,
            presale_lamports,
            rent_exempt_minimum,
            token_vault_balance,
        ) is Ok,
    ensures
        create_pool_outcome(
            presale,
            presale_token,
            other_authority,
            Some(
                create_pool_outcome(
                    presale,
                    presale_token,
                    authority,
                    pool_slot,
                    keys,
                    fee_bps,
                    presale_lamports,
                    rent_exempt_minimum,
                    token_vault_balance,
                )->Ok_0.0,
            ),
            other_keys,
            other_fee_bps,
            other_lamports,
            rent_exempt_minimum,
            other_balance,
        ) == Err::<(Pool, PoolCreated), BoomError>(BoomError::PoolAlreadyCreated),
        BoomError::PoolAlreadyCreated.spec_class() == crate::errors::ErrorClass::State,
{
}

/// What `deposit_pool_tokens` does.
pub open spec fn deposit_pool_tokens_outcome(
    presale: PresaleRound,
    presale_token: PresaleToken,
    authority: Address,
    mint: Address,
    amount: u64,
) -> Result<PoolTokensDeposited, BoomError> {
    if authority != presale.authority {
        Err(BoomError::Unauthorized)
    } else if presale_token.round_id != presale.round_id {
        Err(BoomError::TokenNotCreated)
    } else if presale_token.mint != mint {
        Err(BoomError::InvalidMint)
    } else {
        Ok(PoolTokensDeposited { round_id: presale.round_id, amount })
    }
}

/// Admits a funding of the asset vault by the round's authority. The caller
/// moves `amount` of the round's asset into the vault; the recorded reserve
/// follows at the next `sync_pool_reserves`.
pub fn deposit_pool_tokens(
    presale: &PresaleRound,
    presale_token: &PresaleToken,
    authority: &Address,
    mint: &Address,
    amount: u64,
) -> (r: Result<PoolTokensDeposited, BoomError>)
    ensures
        r == deposit_pool_tokens_outcome(*presale, *presale_token, *authority, *mint, amount),
{
    if !authority.same(&presale.authority) {
        return Err(BoomError::Unauthorized);
    }
    if presale_token.round_id != presale.round_id {
        return Err(BoomError::TokenNotCreated);
    }
    if !presale_token.mint.same(mint) {
        return Err(BoomError::InvalidMint);
    }
    Ok(PoolTokensDeposited { round_id: presale.round_id, amount })
}

/// Sets the recorded reserves to what the vaults hold: the asset vault's
/// balance, and the currency vault's balance above `rent_exempt_minimum`, or
/// nothing where it holds less than that.
pub fn sync_pool_reserves(
    pool: &mut Pool,
    token_vault_balance: u64,
    sol_vault_lamports: u64,
    rent_exempt_minimum: u64,
)
    ensures
        *final(pool) == (Pool {
            token_reserve: token_vault_balance,
            sol_reserve: if sol_vault_lamports >= rent_exempt_minimum {
                (sol_vault_lamports - rent_exempt_minimum) as u64
            } else {
                0
            },
            ..*old(pool)
        }),
        old(pool).wf() ==> final(pool).wf(),
{
    pool.token_reserve = token_vault_balance;
    pool.sol_reserve = if sol_vault_lamports >= rent_exempt_minimum {
        sol_vault_lamports - rent_exempt_minimum
    } else {
        0
    };
}

// ---------------------------------------------------------------------------
// Pricing
// ---------------------------------------------------------------------------

/// The reserve that a swap pays into.
pub open spec fn reserve_in(pool: Pool, is_buy: bool) -> u64 {
    if is_buy {
        pool.sol_reserve
    } else {
        pool.token_reserve
    }
}

/// The reserve that a swap is paid from.
pub open spec fn reserve_out(pool: Pool, is_buy: bool) -> u64 {
    if is_buy {
        pool.token_reserve
    } else {
        pool.sol_reserve
    }
}

/// The output and the fee of a swap of `amount_in`, or why it is refused.
///
/// The output is `floor(reserve_out * amount_in * f / (reserve_in * 10000 +
/// amount_in * f))` with `f = 10000 - fee_bps`. It must reach
/// `min_amount_out`, be more than nothing, and leave something in the reserve
/// it is paid from.
pub open spec fn priced(pool: Pool, amount_in: u64, min_amount_out: u64, is_buy: bool) -> Result<
    (u64, u64),
    BoomError,
> {
    let r_in = reserve_in(pool, is_buy) as int;
    let r_out = reserve_out(pool, is_buy) as int;
    let fee = pool.fee_bps as int;
    let out = swap_output(r_in, r_out, amount_in as int, fee);
    if amount_in == 0 {
        Err(BoomError::ZeroAmount)
    } else if fee > 10000 || swap_numerator(r_out, amount_in as int, fee) > u128::MAX
        || swap_denominator(r_in, amount_in as int, fee) <= 0 {
        Err(BoomError::Overflow)
    } else if out < min_amount_out {
        Err(BoomError::SlippageExceeded)
    } else if out == 0 {
        Err(BoomError::ZeroOutput)
    } else if out >= r_out {
        Err(BoomError::InsufficientLiquidity)
    } else {
        Ok((out as u64, fee_amount(amount_in as int, fee) as u64))
    }
}

/// Prices a swap without touching the pool.
pub fn price_swap(pool: &Pool, amount_in: u64, min_amount_out: u64, is_buy: bool) -> (r: Result<
    (u64, u64),
    BoomError,
>)
    ensures
        r == priced(*pool, amount_in, min_amount_out, is_buy),
        r matches Ok((out, fee)) ==> 0 < out < reserve_out(*pool, is_buy) && fee <= amount_in,
{
    if amount_in == 0 {
        return Err(BoomError::ZeroAmount);
    }
    let r_in: u64 = if is_buy {
        pool.sol_reserve
    } else {
        pool.token_reserve
    };
    let r_out: u64 = if is_buy {
        pool.token_reserve
    } else {
        pool.sol_reserve
    };
    let out: u64 = compute_swap_output(r_in, r_out, amount_in, pool.fee_bps)?;
    if out < min_amount_out {
        return Err(BoomError::SlippageExceeded);
    }
    if out == 0 {
        return Err(BoomError::ZeroOutput);
    }
    if out >= r_out {
        return Err(BoomError::InsufficientLiquidity);
    }
    let fee: u64 = compute_fee_amount(amount_in, pool.fee_bps)?;
    proof {
        assert(amount_in * pool.fee_bps <= amount_in * 10000) by (nonlinear_arith)
            requires
                pool.fee_bps <= 10000,
                amount_in >= 0,
        ;
        crate::math::lemma_quotient_at_most(
            amount_in as int * pool.fee_bps as int,
            10000,
            amount_in as int,
        );
    }
    Ok((out, fee))
}

/// The pool after a swap of `amount_in` for `out` at fee `fee`, or `Overflow`
/// where a reserve or a running total would not fit.
pub open spec fn settled(pool: Pool, amount_in: u64, out: u64, fee: u64, is_buy: bool) -> Result<
    Pool,
    BoomError,
> {
    if reserve_in(pool, is_buy) + amount_in > u64::MAX || out > reserve_out(pool, is_buy)
        || pool.total_volume + amount_in > u128::MAX || pool.total_fees + fee > u128::MAX {
        Err(BoomError::Overflow)
    } else if is_buy {
        Ok(
            Pool {
                sol_reserve: (pool.sol_reserve + amount_in) as u64,
                token_reserve: (pool.token_reserve - out) as u64,
                total_volume: (pool.total_volume + amount_in) as u128,
                total_fees: (pool.total_fees + fee) as u128,
                ..pool
            },
        )
    } else {
        Ok(
            Pool {
                token_reserve: (pool.token_reserve + amount_in) as u64,
                sol_reserve: (pool.sol_reserve - out) as u64,
                total_volume: (pool.total_volume + amount_in) as u128,
                total_fees: (pool.total_fees + fee) as u128,
                ..pool
            },
        )
    }
}

/// What `swap` does.
pub open spec fn swap_outcome(
    pool: Pool,
    mint: Address,
    token_vault: Address,
    user: Address,
    amount_in: u64,
    min_amount_out: u64,
    is_buy: bool,
) -> Result<(Pool, SwapExecuted), BoomError> {
    if mint != pool.mint {
        Err(BoomError::InvalidMint)
    } else if token_vault != pool.token_vault {
        Err(BoomError::InvalidVault)
    } else {
        match priced(pool, amount_in, min_amount_out, is_buy) {
            Err(e) => Err(e),
            Ok((out, fee)) => match settled(pool, amount_in, out, fee, is_buy) {
                Err(e) => Err(e),
                Ok(next) => Ok(
                    (
                        next,
                        SwapExecuted {
                            round_id: pool.round_id,
                            user,
                            is_buy,
                            amount_in,
                            amount_out: out,
                            fee_amount: fee,
                            new_sol_reserve: next.sol_reserve,
                            new_token_reserve: next.token_reserve,
                        },
                    ),
                ),
            },
        }
    }
}

/// Applies a priced swap to the pool.
fn settle(pool: &mut Pool, amount_in: u64, out: u64, fee: u64, is_buy: bool) -> (r: Result<
    (),
    BoomError,
>)
    ensures
        match settled(*old(pool), amount_in, out, fee, is_buy) {
            Ok(next) => r is Ok && *final(pool) == next,
            Err(e) => r == Err::<(), BoomError>(e) && *final(pool) == *old(pool),
        },
{
    let r_in: u64 = if is_buy {
        pool.sol_reserve
    } else {
        pool.token_reserve
    };
    let r_out: u64 = if is_buy {
        pool.token_reserve
    } else {
        pool.sol_reserve
    };
    let new_in: u64 = match r_in.checked_add(amount_in) {
        Some(v) => v,
        None => {
            return Err(BoomError::Overflow);
        },
    };
    let new_out: u64 = match r_out.checked_sub(out) {
        Some(v) => v,
        None => {
            return Err(BoomError::Overflow);
        },
    };
    let volume: u128 = match pool.total_volume.checked_add(amount_in as u128) {
        Some(v) => v,
        None => {
            return Err(BoomError::Overflow);
        },
    };
    let fees: u128 = match pool.total_fees.checked_add(fee as u128) {
        Some(v) => v,
        None => {
            return Err(BoomError::Overflow);
        },
    };
    if is_buy {
        pool.sol_reserve = new_in;
        pool.token_reserve = new_out;
    } else {
        pool.token_reserve = new_in;
        pool.sol_reserve = new_out;
    }
    pool.total_volume = volume;
    pool.total_fees = fees;
    Ok(())
}

/// Swaps `amount_in` against the pool: currency for the asset when `is_buy`,
/// the asset for currency otherwise. `mint` and `token_vault` are the asset
/// and the vault that the caller is about to move; they must be the pool's.
///
/// On success the reserves and the running totals are updated and the result
/// tells what to move: `amount_in` into the vault of the side paid, and
/// `amount_out` out of the other. Neither reserve is ever emptied.
pub fn swap(
    pool: &mut Pool,
    mint: &Address,
    token_vault: &Address,
    user: &Address,
    amount_in: u64,
    min_amount_out: u64,
    is_buy: bool,
) -> (r: Result<SwapExecuted, BoomError>)
    ensures
        match swap_outcome(
            *old(pool),
            *mint,
            *token_vault,
            *user,
            amount_in,
            min_amount_out,
            is_buy,
        ) {
            Ok((next, event)) => r == Ok::<SwapExecuted, BoomError>(event) && *final(pool) == next,
            Err(e) => r == Err::<SwapExecuted, BoomError>(e) && *final(pool) == *old(pool),
        },
        r is Ok ==> final(pool).sol_reserve > 0 && final(pool).token_reserve > 0,
        old(pool).wf() ==> final(pool).wf(),
{
    if !mint.same(&pool.mint) {
        return Err(BoomError::InvalidMint);
    }
    if !token_vault.same(&pool.token_vault) {
        return Err(BoomError::InvalidVault);
    }
    let (out, fee) = price_swap(pool, amount_in, min_amount_out, is_buy)?;
    settle(pool, amount_in, out, fee, is_buy)?;
    Ok(
        SwapExecuted {
            round_id: pool.round_id,
            user: *user,
            is_buy,
            amount_in,
            amount_out: out,
            fee_amount: fee,
            new_sol_reserve: pool.sol_reserve,
            new_token_reserve: pool.token_reserve,
        },
    )
}

/// Settles a purchase in two legs that must stand or fall together: the
/// currency goes into the vault first, then the asset leaves it under the
/// pool's own authority. The decision and the record are those of a `swap`
/// with `is_buy`; if the asset leg is refused the caller drops the returned
/// state and takes the currency back.
pub fn swap_atomic_buy(
    pool: &mut Pool,
    mint: &Address,
    token_vault: &Address,
    user: &Address,
    sol_in: u64,
    min_tokens_out: u64,
) -> (r: Result<SwapExecuted, BoomError>)
    ensures
        match swap_outcome(*old(pool), *mint, *token_vault, *user, sol_in, min_tokens_out, true) {
            Ok((next, event)) => r == Ok::<SwapExecuted, BoomError>(event) && *final(pool) == next,
            Err(e) => r == Err::<SwapExecuted, BoomError>(e) && *final(pool) == *old(pool),
        },
        r is Ok ==> final(pool).sol_reserve > 0 && final(pool).token_reserve > 0,
        old(pool).wf() ==> final(pool).wf(),
{
    swap(pool, mint, token_vault, user, sol_in, min_tokens_out, true)
}

/// What `swap_atomic_sell` does.
pub open spec fn atomic_sell_outcome(
    pool: Pool,
    token_vault: Address,
    user: Address,
    actual_vault_balance: u64,
    expected_tokens_in: u64,
    min_sol_out: u64,
) -> Result<(Pool, SwapExecuted), BoomError> {
    if token_vault != pool.token_vault {
        Err(BoomError::InvalidVault)
    } else if expected_tokens_in == 0 {
        Err(BoomError::ZeroAmount)
    } else if pool.token_reserve + expected_tokens_in > u64::MAX {
        Err(BoomError::Overflow)
    } else if actual_vault_balance < pool.token_reserve + expected_tokens_in {
        Err(BoomError::InsufficientDeposit)
    } else {
        match priced(pool, expected_tokens_in, min_sol_out, false) {
            Err(e) => Err(e),
            Ok((out, fee)) => match settled(pool, expected_tokens_in, out, fee, false) {
                Err(e) => Err(e),
                Ok(next) => Ok(
                    (
                        Pool { token_reserve: actual_vault_balance, ..next },
                        SwapExecuted {
                            round_id: pool.round_id,
                            user,
                            is_buy: false,
                            amount_in: expected_tokens_in,
                            amount_out: out,
                            fee_amount: fee,
                            new_sol_reserve: next.sol_reserve,
                            new_token_reserve: actual_vault_balance,
                        },
                    ),
                ),
            },
        }
    }
}

/// Settles a sale whose asset leg was made beforehand. The seller claims to
/// have moved `expected_tokens_in` into the vault; the claim is believed only
/// if `actual_vault_balance`, the balance observed in the pool's vault, exceeds
/// the recorded reserve by at least that much. The price is that of a sale of
/// `expected_tokens_in`; the recorded asset reserve becomes the observed
/// balance, and the caller releases `amount_out` of currency.
pub fn swap_atomic_sell(
    pool: &mut Pool,
    token_vault: &Address,
    user: &Address,
    actual_vault_balance: u64,
    expected_tokens_in: u64,
    min_sol_out: u64,
) -> (r: Result<SwapExecuted, BoomError>)
    ensures
        match atomic_sell_outcome(
            *old(pool),
            *token_vault,
            *user,
            actual_vault_balance,
            expected_tokens_in,
            min_sol_out,
        ) {
            Ok((next, event)) => r == Ok::<SwapExecuted, BoomError>(event) && *final(pool) == next,
            Err(e) => r == Err::<SwapExecuted, BoomError>(e) && *final(pool) == *old(pool),
        },
        r is Ok ==> final(pool).sol_reserve > 0 && final(pool).token_reserve > 0,
        old(pool).wf() ==> final(pool).wf(),
{
    if !token_vault.same(&pool.token_vault) {
        return Err(BoomError::InvalidVault);
    }
    if expected_tokens_in == 0 {
        return Err(BoomError::ZeroAmount);
    }
    let expected_balance: u64 = match pool.token_reserve.checked_add(expected_tokens_in) {
        Some(v) => v,
        None => {
            return Err(BoomError::Overflow);
        },
    };
    if actual_vault_balance < expected_balance {
        return Err(BoomError::InsufficientDeposit);
    }
    let (out, fee) = price_swap(pool, expected_tokens_in, min_sol_out, false)?;
    settle(pool, expected_tokens_in, out, fee, false)?;
    pool.token_reserve = actual_vault_balance;
    Ok(
        SwapExecuted {
            round_id: pool.round_id,
            user: *user,
            is_buy: false,
            amount_in: expected_tokens_in,
            amount_out: out,
            fee_amount: fee,
            new_sol_reserve: pool.sol_reserve,
            new_token_reserve: pool.token_reserve,
        },
    )
}

// ---------------------------------------------------------------------------
// Quotes
// ---------------------------------------------------------------------------

/// What `get_swap_quote` reports.
pub open spec fn quote_outcome(pool: Pool, amount_in: u64, is_buy: bool) -> Result<
    SwapQuote,
    BoomError,
> {
    let r_in = reserve_in(pool, is_buy) as int;
    let r_out = reserve_out(pool, is_buy) as int;
    let fee = pool.fee_bps as int;
    let out = swap_output(r_in, r_out, amount_in as int, fee);
    let ideal = ideal_output(r_in, r_out, amount_in as int);
    if fee > 10000 || swap_numerator(r_out, amount_in as int, fee) > u128::MAX || r_in == 0 {
        Err(BoomError::Overflow)
    } else if ideal > 0 && (ideal - out) * 10000 > u128::MAX {
        Err(BoomError::Overflow)
    } else {
        Ok(
            SwapQuote {
                round_id: pool.round_id,
                is_buy,
                amount_in,
                amount_out: out as u64,
                price_impact_bps: price_impact(ideal, out) as u16,
                fee_bps: pool.fee_bps,
            },
        )
    }
}

/// The actual output of a swap never exceeds the output at the current ratio.
pub proof fn lemma_output_at_most_ideal(r_in: int, r_out: int, amount_in: int, fee_bps: int)
    requires
        r_in > 0,
        r_out >= 0,
        amount_in >= 0,
        0 <= fee_bps <= 10000,
    ensures
        0 <= swap_output(r_in, r_out, amount_in, fee_bps) <= ideal_output(r_in, r_out, amount_in),
{
    let f = 10000 - fee_bps;
    let n = swap_numerator(r_out, amount_in, fee_bps);
    let d = swap_denominator(r_in, amount_in, fee_bps);
    let c = amount_in * r_out;
    assert(c >= 0) by (nonlinear_arith)
        requires
            c == amount_in * r_out,
            amount_in >= 0,
            r_out >= 0,
    ;
    assert(d > 0 && d >= r_in * f) by (nonlinear_arith)
        requires
            d == r_in * 10000 + amount_in * f,
            r_in > 0,
            amount_in >= 0,
            0 <= f <= 10000,
    ;
    assert(n == c * f) by (nonlinear_arith)
        requires
            n == r_out * amount_in * f,
            c == amount_in * r_out,
    ;
    assert(n * r_in <= c * d) by (nonlinear_arith)
        requires
            n == c * f,
            d >= r_in * f,
            c >= 0,
    {
        assert(c * f * r_in == c * (r_in * f));
    }
    lemma_fraction_order(c, r_in, n, d);
    lemma_swap_output_bounded(r_in, r_out, amount_in, fee_bps);
}

/// Quotes a swap without changing anything: the output it would give and its
/// price impact, `(ideal - actual) / ideal` in basis points, where `ideal` is
/// the output at the current ratio of the reserves with neither fee nor
/// curvature.
pub fn get_swap_quote(pool: &Pool, amount_in: u64, is_buy: bool) -> (r: Result<
    SwapQuote,
    BoomError,
>)
    ensures
        r == quote_outcome(*pool, amount_in, is_buy),
        r matches Ok(quote) ==> quote.price_impact_bps <= 10000,
{
    let r_in: u64 = if is_buy {
        pool.sol_reserve
    } else {
        pool.token_reserve
    };
    let r_out: u64 = if is_buy {
        pool.token_reserve
    } else {
        pool.sol_reserve
    };
    if r_in == 0 {
        proof {
            assert(quote_outcome(*pool, amount_in, is_buy) is Err);
        }
        return Err(BoomError::Overflow);
    }
    assert(swap_denominator(r_in as int, amount_in as int, pool.fee_bps as int) > 0
        || pool.fee_bps > 10000) by (nonlinear_arith)
        requires
            r_in > 0,
            amount_in >= 0,
    ;
    let out: u64 = compute_swap_output(r_in, r_out, amount_in, pool.fee_bps)?;
    let ideal: u128 = compute_ideal_output(r_in, r_out, amount_in)?;
    proof {
        lemma_output_at_most_ideal(
            r_in as int,
            r_out as int,
            amount_in as int,
            pool.fee_bps as int,
        );
    }
    let price_impact_bps: u16 = compute_price_impact_bps(ideal, out)?;
    Ok(
        SwapQuote {
            round_id: pool.round_id,
            is_buy,
            amount_in,
            amount_out: out,
            price_impact_bps,
            fee_bps: pool.fee_bps,
        },
    )
}

// ---------------------------------------------------------------------------
// Laws
// ---------------------------------------------------------------------------

/// Fee erosion through the pool. Whoever buys the asset with `amount_in` of
/// currency and at once sells what was received, against the pool as the
/// purchase left it, gets back at most `amount_in`.
pub proof fn lemma_buy_then_sell_never_gains(
    pool: Pool,
    user: Address,
    amount_in: u64,
    min_tokens_out: u64,
    min_sol_out: u64,
)
    requires
        swap_outcome(pool, pool.mint, pool.token_vault, user, amount_in, min_tokens_out, true)
            is Ok,
        ({
            let bought = swap_outcome(
                pool,
                pool.mint,
                pool.token_vault,
                user,
                amount_in,
                min_tokens_out,
                true,
            )->Ok_0;
            swap_outcome(
                bought.0,
                pool.mint,
                pool.token_vault,
                user,
                bought.1.amount_out,
                min_sol_out,
                false,
            ) is Ok
        }),
    ensures
        ({
            let bought = swap_outcome(
                pool,
                pool.mint,
                pool.token_vault,
                user,
                amount_in,
                min_tokens_out,
                true,
            )->Ok_0;
            let sold = swap_outcome(
                bought.0,
                pool.mint,
                pool.token_vault,
                user,
                bought.1.amount_out,
                min_sol_out,
                false,
            )->Ok_0;
            sold.1.amount_out <= amount_in
        }),
{
    lemma_round_trip_through_pool(
        pool.sol_reserve as int,
        pool.token_reserve as int,
        amount_in as int,
        pool.fee_bps as int,
    );
}

/// A higher fee never buys more from the same pool: of two pools that differ
/// in their fee alone, both within the cap, the one with the higher fee gives
/// the smaller or equal output wherever both swaps succeed.
pub proof fn lemma_higher_fee_never_pays_more(
    pool: Pool,
    higher_fee_bps: u16,
    amount_in: u64,
    is_buy: bool,
)
    requires
        pool.fee_bps < higher_fee_bps <= MAX_FEE_BPS,
        reserve_in(pool, is_buy) > 0,
        reserve_out(pool, is_buy) > 0,
        priced(pool, amount_in, 0, is_buy) is Ok,
        priced(Pool { fee_bps: higher_fee_bps, ..pool }, amount_in, 0, is_buy) is Ok,
    ensures
        priced(Pool { fee_bps: higher_fee_bps, ..pool }, amount_in, 0, is_buy)->Ok_0.0 <= priced(
            pool,
            amount_in,
            0,
            is_buy,
        )->Ok_0.0,
{
    crate::math::lemma_swap_output_decreases_with_fee(
        reserve_in(pool, is_buy) as int,
        reserve_out(pool, is_buy) as int,
        amount_in as int,
        pool.fee_bps as int,
        higher_fee_bps as int,
    );
}

} // verus!
