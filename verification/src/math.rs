//! Overflow-checked fixed-point arithmetic shared by pricing and by every
//! proportional split. Quantities are 64-bit; products are taken in 128 bits
//! and an intermediate that does not fit is reported, never wrapped.

use crate::errors::BoomError;
use vstd::arithmetic::div_mod::{lemma_fundamental_div_mod, lemma_mod_bound};
use vstd::prelude::*;

verus! {

/// One whole, in basis points.
pub const BPS_DENOMINATOR: u64 = 10000;

/// The highest fee a pool may charge: ten percent.
pub const MAX_FEE_BPS: u16 = 1000;

/// What is left of each unit paid in once the fee is taken, in basis points.
pub open spec fn fee_factor(fee_bps: int) -> int {
    10000 - fee_bps
}

/// `reserve_out * amount_in * fee_factor`.
pub open spec fn swap_numerator(reserve_out: int, amount_in: int, fee_bps: int) -> int {
    reserve_out * amount_in * fee_factor(fee_bps)
}

/// `reserve_in * 10000 + amount_in * fee_factor`.
pub open spec fn swap_denominator(reserve_in: int, amount_in: int, fee_bps: int) -> int {
    reserve_in * 10000 + amount_in * fee_factor(fee_bps)
}

/// The constant-product output for `amount_in`, rounded down.
pub open spec fn swap_output(
    reserve_in: int,
    reserve_out: int,
    amount_in: int,
    fee_bps: int,
) -> int {
    swap_numerator(reserve_out, amount_in, fee_bps) / swap_denominator(
        reserve_in,
        amount_in,
        fee_bps,
    )
}

/// The fee share of `amount_in`, rounded down.
pub open spec fn fee_amount(amount_in: int, fee_bps: int) -> int {
    amount_in * fee_bps / 10000
}

/// The output at the pool's current ratio, with neither fee nor curvature.
pub open spec fn ideal_output(reserve_in: int, reserve_out: int, amount_in: int) -> int {
    amount_in * reserve_out / reserve_in
}

/// How far `actual` falls short of `ideal`, in basis points of `ideal`.
pub open spec fn price_impact(ideal: int, actual: int) -> int {
    if ideal > 0 {
        (ideal - actual) * 10000 / ideal
    } else {
        0
    }
}

/// The share of `total` owed to `balance` out of `supply`, rounded down.
pub open spec fn payout_share(balance: int, total: int, supply: int) -> int {
    balance * total / supply
}

/// Rounded-down division: `n / d` is the one `q` with `q * d <= n < (q + 1) * d`.
pub proof fn lemma_floor_bounds(n: int, d: int)
    requires
        d > 0,
    ensures
        (n / d) * d <= n,
        n < (n / d + 1) * d,
{
    lemma_fundamental_div_mod(n, d);
    lemma_mod_bound(n, d);
    assert((n / d) * d == d * (n / d)) by (nonlinear_arith);
    assert((n / d + 1) * d == d * (n / d) + d) by (nonlinear_arith);
}

/// A quotient is at most `b` when the dividend is at most `b * d`.
pub proof fn lemma_quotient_at_most(n: int, d: int, b: int)
    requires
        d > 0,
        n <= b * d,
    ensures
        n / d <= b,
{
    lemma_floor_bounds(n, d);
    let q = n / d;
    assert(q <= b) by (nonlinear_arith)
        requires
            q * d <= n,
            n <= b * d,
            d > 0,
    ;
}

/// A quotient is below `b` when the dividend is below `b * d`.
pub proof fn lemma_quotient_below(n: int, d: int, b: int)
    requires
        d > 0,
        n < b * d,
    ensures
        n / d < b,
{
    lemma_floor_bounds(n, d);
    let q = n / d;
    assert(q < b) by (nonlinear_arith)
        requires
            q * d <= n,
            n < b * d,
            d > 0,
    ;
}

/// A quotient is at least `b` when the dividend is at least `b * d`.
pub proof fn lemma_quotient_at_least(n: int, d: int, b: int)
    requires
        d > 0,
        b * d <= n,
    ensures
        b <= n / d,
{
    lemma_floor_bounds(n, d);
    let q = n / d;
    assert(b <= q) by (nonlinear_arith)
        requires
            n < (q + 1) * d,
            b * d <= n,
            d > 0,
    ;
}

/// Of two fractions with positive denominators the smaller has the smaller
/// rounded-down value: `n2 / d2 <= n1 / d1` when `n2 * d1 <= n1 * d2`.
pub proof fn lemma_fraction_order(n1: int, d1: int, n2: int, d2: int)
    requires
        d1 > 0,
        d2 > 0,
        n2 * d1 <= n1 * d2,
    ensures
        n2 / d2 <= n1 / d1,
{
    lemma_floor_bounds(n2, d2);
    let q2 = n2 / d2;
    assert(q2 * d1 <= n1) by (nonlinear_arith)
        requires
            q2 * d2 <= n2,
            n2 * d1 <= n1 * d2,
            d1 > 0,
            d2 > 0,
    {
        assert(q2 * d2 * d1 <= n2 * d1);
        assert(q2 * d1 * d2 <= n1 * d2);
    }
    lemma_quotient_at_least(n1, d1, q2);
}

/// The output of a swap never exceeds the reserve it is paid from, and stays
/// strictly below it while the reserve paid into is not empty.
pub proof fn lemma_swap_output_bounded(
    reserve_in: int,
    reserve_out: int,
    amount_in: int,
    fee_bps: int,
)
    requires
        0 <= reserve_in,
        0 <= reserve_out,
        0 <= amount_in,
        0 <= fee_bps <= 10000,
        swap_denominator(reserve_in, amount_in, fee_bps) > 0,
    ensures
        0 <= swap_output(reserve_in, reserve_out, amount_in, fee_bps) <= reserve_out,
        reserve_in > 0 && reserve_out > 0 ==> swap_output(
            reserve_in,
            reserve_out,
            amount_in,
            fee_bps,
        ) < reserve_out,
{
    let f = fee_factor(fee_bps);
    let x = amount_in * f;
    let n = swap_numerator(reserve_out, amount_in, fee_bps);
    let d = swap_denominator(reserve_in, amount_in, fee_bps);
    assert(x >= 0) by (nonlinear_arith)
        requires
            x == amount_in * f,
            amount_in >= 0,
            f >= 0,
    ;
    assert(n == reserve_out * x) by (nonlinear_arith)
        requires
            n == reserve_out * amount_in * f,
            x == amount_in * f,
    ;
    assert(n >= 0 && n <= reserve_out * d) by (nonlinear_arith)
        requires
            n == reserve_out * x,
            d == reserve_in * 10000 + x,
            x >= 0,
            reserve_out >= 0,
            reserve_in >= 0,
    ;
    lemma_quotient_at_most(n, d, reserve_out);
    assert(0 * d <= n);
    lemma_quotient_at_least(n, d, 0);
    if reserve_in > 0 && reserve_out > 0 {
        assert(n < reserve_out * d) by (nonlinear_arith)
            requires
                n == reserve_out * x,
                d == reserve_in * 10000 + x,
                x >= 0,
                reserve_out > 0,
                reserve_in > 0,
        ;
        lemma_quotient_below(n, d, reserve_out);
    }
}

/// A higher fee never buys more. For any two fees up to one whole, with both
/// reserves positive, the rounded-down output at the higher fee is at most the
/// output at the lower fee; and for a positive amount the exact quotient, before
/// rounding, is strictly smaller (stated cross-multiplied).
pub proof fn lemma_swap_output_decreases_with_fee(
    reserve_in: int,
    reserve_out: int,
    amount_in: int,
    fee_low: int,
    fee_high: int,
)
    requires
        reserve_in > 0,
        reserve_out > 0,
        amount_in >= 0,
        0 <= fee_low < fee_high <= 10000,
    ensures
        swap_output(reserve_in, reserve_out, amount_in, fee_high) <= swap_output(
            reserve_in,
            reserve_out,
            amount_in,
            fee_low,
        ),
        amount_in > 0 ==> swap_numerator(reserve_out, amount_in, fee_high) * swap_denominator(
            reserve_in,
            amount_in,
            fee_low,
        ) < swap_numerator(reserve_out, amount_in, fee_low) * swap_denominator(
            reserve_in,
            amount_in,
            fee_high,
        ),
{
    let fl = fee_factor(fee_low);
    let fh = fee_factor(fee_high);
    let c = reserve_out * amount_in;
    let d0 = reserve_in * 10000;
    let nl = swap_numerator(reserve_out, amount_in, fee_low);
    let nh = swap_numerator(reserve_out, amount_in, fee_high);
    let dl = swap_denominator(reserve_in, amount_in, fee_low);
    let dh = swap_denominator(reserve_in, amount_in, fee_high);
    assert(c >= 0 && (amount_in > 0 ==> c > 0)) by (nonlinear_arith)
        requires
            c == reserve_out * amount_in,
            reserve_out > 0,
            amount_in >= 0,
    ;
    assert(dl > 0 && dh > 0) by (nonlinear_arith)
        requires
            dl == reserve_in * 10000 + amount_in * fl,
            dh == reserve_in * 10000 + amount_in * fh,
            reserve_in > 0,
            amount_in >= 0,
            fl >= 0,
            fh >= 0,
    ;
    let xl = amount_in * fl;
    let xh = amount_in * fh;
    assert(nl * dh == nl * d0 + nl * xh) by (nonlinear_arith)
        requires
            dh == d0 + xh,
    ;
    assert(nh * dl == nh * d0 + nh * xl) by (nonlinear_arith)
        requires
            dl == d0 + xl,
    ;
    assert(nl * xh == nh * xl) by (nonlinear_arith)
        requires
            nl == c * fl,
            nh == c * fh,
            xl == amount_in * fl,
            xh == amount_in * fh,
    ;
    assert(nl * d0 - nh * d0 == c * d0 * (fl - fh)) by (nonlinear_arith)
        requires
            nl == c * fl,
            nh == c * fh,
    ;
    assert(c * d0 * (fl - fh) >= 0 && (c > 0 ==> c * d0 * (fl - fh) > 0)) by (nonlinear_arith)
        requires
            c >= 0,
            d0 > 0,
            fl - fh > 0,
    ;
    lemma_fraction_order(nl, dl, nh, dh);
}

/// Fee erosion at a fixed price. Paying `amount_in` of currency for the asset
/// and selling what was received at the same reserves, as if the first leg had
/// not moved the price, returns at most `amount_in`.
pub proof fn lemma_round_trip_at_fixed_reserves(
    currency_reserve: int,
    asset_reserve: int,
    amount_in: int,
    fee_bps: int,
)
    requires
        currency_reserve > 0,
        asset_reserve > 0,
        amount_in >= 0,
        0 <= fee_bps <= 10000,
    ensures
        swap_output(
            asset_reserve,
            currency_reserve,
            swap_output(currency_reserve, asset_reserve, amount_in, fee_bps),
            fee_bps,
        ) <= amount_in,
{
    let f = fee_factor(fee_bps);
    let s = currency_reserve;
    let t = asset_reserve;
    let a = amount_in;
    let n1 = swap_numerator(t, a, fee_bps);
    let d1 = swap_denominator(s, a, fee_bps);
    assert(d1 > 0) by (nonlinear_arith)
        requires
            d1 == s * 10000 + a * f,
            s > 0,
            a >= 0,
            f >= 0,
    ;
    lemma_swap_output_bounded(s, t, a, fee_bps);
    lemma_floor_bounds(n1, d1);
    let got = n1 / d1;
    let n2 = swap_numerator(s, got, fee_bps);
    let d2 = swap_denominator(t, got, fee_bps);
    assert(d2 > 0) by (nonlinear_arith)
        requires
            d2 == t * 10000 + got * f,
            t > 0,
            got >= 0,
            f >= 0,
    ;
    assert(got * s * 10000 <= t * a * f) by (nonlinear_arith)
        requires
            got * d1 <= n1,
            n1 == t * a * f,
            d1 == s * 10000 + a * f,
            got >= 0,
            a >= 0,
            f >= 0,
    ;
    assert(got * s * 10000 * f <= t * a * f * f) by (nonlinear_arith)
        requires
            got * s * 10000 <= t * a * f,
            f >= 0,
    ;
    assert(t * a * f * f <= t * a * 100000000) by (nonlinear_arith)
        requires
            0 <= f <= 10000,
            t > 0,
            a >= 0,
    ;
    assert(n2 <= a * d2) by (nonlinear_arith)
        requires
            n2 == s * got * f,
            d2 == t * 10000 + got * f,
            got * s * 10000 * f <= t * a * f * f,
            t * a * f * f <= t * a * 100000000,
            got >= 0,
            a >= 0,
            f >= 0,
    ;
    lemma_quotient_at_most(n2, d2, a);
}

/// Fee erosion through the pool. Paying `amount_in` of currency for the asset
/// and selling what was received against the reserves as the purchase left
/// them returns at most `amount_in`.
pub proof fn lemma_round_trip_through_pool(
    currency_reserve: int,
    asset_reserve: int,
    amount_in: int,
    fee_bps: int,
)
    requires
        currency_reserve >= 0,
        asset_reserve > 0,
        amount_in >= 0,
        0 <= fee_bps <= 10000,
        swap_denominator(currency_reserve, amount_in, fee_bps) > 0,
        swap_output(currency_reserve, asset_reserve, amount_in, fee_bps) < asset_reserve,
    ensures
        ({
            let got = swap_output(currency_reserve, asset_reserve, amount_in, fee_bps);
            swap_output(asset_reserve - got, currency_reserve + amount_in, got, fee_bps)
                <= amount_in
        }),
{
    let f = fee_factor(fee_bps);
    let s = currency_reserve;
    let t = asset_reserve;
    let a = amount_in;
    let n1 = swap_numerator(t, a, fee_bps);
    let d1 = swap_denominator(s, a, fee_bps);
    lemma_swap_output_bounded(s, t, a, fee_bps);
    lemma_floor_bounds(n1, d1);
    let got = n1 / d1;
    let n2 = swap_numerator(s + a, got, fee_bps);
    let d2 = swap_denominator(t - got, got, fee_bps);
    assert(d2 > 0) by (nonlinear_arith)
        requires
            d2 == (t - got) * 10000 + got * f,
            t - got > 0,
            got >= 0,
            f >= 0,
    ;
    // got * (s * 10000 + a * f) <= t * a * f
    let gs = got * s;
    let ga = got * a;
    let ta = t * a;
    assert(gs >= 0 && ga >= 0 && ta >= 0) by (nonlinear_arith)
        requires
            gs == got * s,
            ga == got * a,
            ta == t * a,
            got >= 0,
            s >= 0,
            a >= 0,
            t > 0,
    ;
    assert(gs * 10000 + ga * f <= ta * f) by (nonlinear_arith)
        requires
            got * d1 <= n1,
            n1 == t * a * f,
            d1 == s * 10000 + a * f,
            gs == got * s,
            ga == got * a,
            ta == t * a,
    ;
    // wanted: gs * f + ga * 10000 <= ta * 10000
    if f == 0 {
        assert(n1 == 0) by (nonlinear_arith)
            requires
                n1 == t * a * f,
                f == 0,
        ;
        assert(got == 0);
        assert(gs == 0 && ga == 0) by (nonlinear_arith)
            requires
                gs == got * s,
                ga == got * a,
                got == 0,
        ;
    } else {
        assert((gs * f + ga * 10000) * f <= ta * 10000 * f) by (nonlinear_arith)
            requires
                gs * 10000 + ga * f <= ta * f,
                0 < f <= 10000,
                gs >= 0,
                ga >= 0,
        {
            assert(gs * f * f <= gs * 100000000);
            assert((gs * 10000 + ga * f) * 10000 <= ta * f * 10000);
        }
        assert(gs * f + ga * 10000 <= ta * 10000) by (nonlinear_arith)
            requires
                (gs * f + ga * 10000) * f <= ta * 10000 * f,
                f > 0,
        ;
    }
    assert(n2 <= a * d2) by (nonlinear_arith)
        requires
            n2 == (s + a) * got * f,
            d2 == (t - got) * 10000 + got * f,
            gs * f + ga * 10000 <= ta * 10000,
            gs == got * s,
            ga == got * a,
            ta == t * a,
    ;
    lemma_quotient_at_most(n2, d2, a);
}

/// The balances of a run of claims, added up.
pub open spec fn total_balance(balances: Seq<u64>) -> int
    decreases balances.len(),
{
    if balances.len() == 0 {
        0
    } else {
        total_balance(balances.drop_last()) + balances.last()
    }
}

/// The shares paid to a run of claims, added up.
pub open spec fn total_paid(balances: Seq<u64>, total: int, supply: int) -> int
    decreases balances.len(),
{
    if balances.len() == 0 {
        0
    } else {
        total_paid(balances.drop_last(), total, supply) + payout_share(
            balances.last() as int,
            total,
            supply,
        )
    }
}

/// Rounding favours the pool: shares paid against a fixed `supply` to balances
/// that together do not exceed it never add up to more than `total`.
pub proof fn lemma_shares_within_total(balances: Seq<u64>, total: int, supply: int)
    requires
        supply > 0,
        total >= 0,
        total_balance(balances) <= supply,
    ensures
        0 <= total_paid(balances, total, supply) <= total,
{
    lemma_paid_scaled(balances, total, supply);
    let paid = total_paid(balances, total, supply);
    let held = total_balance(balances);
    assert(paid * supply <= total * supply) by (nonlinear_arith)
        requires
            paid * supply <= held * total,
            held <= supply,
            total >= 0,
    ;
    assert(paid <= total) by (nonlinear_arith)
        requires
            paid * supply <= total * supply,
            supply > 0,
    ;
}

proof fn lemma_paid_scaled(balances: Seq<u64>, total: int, supply: int)
    requires
        supply > 0,
        total >= 0,
    ensures
        0 <= total_paid(balances, total, supply),
        0 <= total_balance(balances),
        total_paid(balances, total, supply) * supply <= total_balance(balances) * total,
    decreases balances.len(),
{
    if balances.len() > 0 {
        let rest = balances.drop_last();
        let b = balances.last() as int;
        lemma_paid_scaled(rest, total, supply);
        let share = payout_share(b, total, supply);
        assert(b * total >= 0) by (nonlinear_arith)
            requires
                b >= 0,
                total >= 0,
        ;
        lemma_floor_bounds(b * total, supply);
        lemma_quotient_at_least(b * total, supply, 0);
        let paid_rest = total_paid(rest, total, supply);
        let held_rest = total_balance(rest);
        assert((paid_rest + share) * supply <= (held_rest + b) * total) by (nonlinear_arith)
            requires
                paid_rest * supply <= held_rest * total,
                share * supply <= b * total,
        ;
    }
}

/// The output of a swap, or `Overflow` where the fee exceeds one whole, the
/// 128-bit numerator does not fit, or the denominator is zero.
pub fn compute_swap_output(reserve_in: u64, reserve_out: u64, amount_in: u64, fee_bps: u16) -> (r:
    Result<u64, BoomError>)
    ensures
        r is Ok <==> fee_bps <= 10000 && swap_numerator(
            reserve_out as int,
            amount_in as int,
            fee_bps as int,
        ) <= u128::MAX && swap_denominator(reserve_in as int, amount_in as int, fee_bps as int) > 0,
        r matches Ok(out) ==> out == swap_output(
            reserve_in as int,
            reserve_out as int,
            amount_in as int,
            fee_bps as int,
        ),
        r matches Err(e) ==> e == BoomError::Overflow,
{
    let factor: u128 = match 10000u128.checked_sub(fee_bps as u128) {
        Some(f) => f,
        None => {
            return Err(BoomError::Overflow);
        },
    };
    let amount: u128 = amount_in as u128;
    assert(reserve_out * amount_in <= u128::MAX) by (nonlinear_arith)
        requires
            reserve_out <= u64::MAX,
            amount_in <= u64::MAX,
    ;
    assert(amount_in * factor <= u128::MAX && amount_in * factor >= 0) by (nonlinear_arith)
        requires
            amount_in <= u64::MAX,
            0 <= factor <= 10000,
    ;
    assert(reserve_in * 10000 + amount_in * factor <= u128::MAX) by (nonlinear_arith)
        requires
            reserve_in <= u64::MAX,
            amount_in <= u64::MAX,
            0 <= factor <= 10000,
    ;
    let gross: u128 = (reserve_out as u128) * amount;
    let numerator: u128 = match gross.checked_mul(factor) {
        Some(n) => n,
        None => {
            return Err(BoomError::Overflow);
        },
    };
    let denominator: u128 = (reserve_in as u128) * 10000 + amount * factor;
    if denominator == 0 {
        return Err(BoomError::Overflow);
    }
    let out: u128 = numerator / denominator;
    proof {
        lemma_swap_output_bounded(
            reserve_in as int,
            reserve_out as int,
            amount_in as int,
            fee_bps as int,
        );
    }
    Ok(out as u64)
}

/// The fee share of `amount_in`, or `Overflow` where it does not fit.
pub fn compute_fee_amount(amount_in: u64, fee_bps: u16) -> (r: Result<u64, BoomError>)
    ensures
        r is Ok <==> fee_amount(amount_in as int, fee_bps as int) <= u64::MAX,
        r matches Ok(fee) ==> fee == fee_amount(amount_in as int, fee_bps as int),
        r matches Err(e) ==> e == BoomError::Overflow,
        fee_bps <= 10000 ==> r is Ok,
{
    assert(amount_in * fee_bps <= u128::MAX && amount_in * fee_bps >= 0) by (nonlinear_arith)
        requires
            amount_in <= u64::MAX,
            fee_bps <= u16::MAX,
    ;
    let product: u128 = (amount_in as u128) * (fee_bps as u128);
    let fee: u128 = product / 10000;
    proof {
        if fee_bps <= 10000 {
            assert(amount_in * fee_bps <= amount_in * 10000) by (nonlinear_arith)
                requires
                    fee_bps <= 10000,
                    amount_in >= 0,
            ;
            lemma_quotient_at_most(product as int, 10000, amount_in as int);
        }
    }
    if fee > u64::MAX as u128 {
        return Err(BoomError::Overflow);
    }
    Ok(fee as u64)
}

/// The output at the current ratio, or `Overflow` where the reserve paid into
/// is empty.
pub fn compute_ideal_output(reserve_in: u64, reserve_out: u64, amount_in: u64) -> (r: Result<
    u128,
    BoomError,
>)
    ensures
        r is Ok <==> reserve_in > 0,
        r matches Ok(ideal) ==> ideal == ideal_output(
            reserve_in as int,
            reserve_out as int,
            amount_in as int,
        ),
        r matches Err(e) ==> e == BoomError::Overflow,
{
    assert(amount_in * reserve_out <= u128::MAX && amount_in * reserve_out >= 0)
        by (nonlinear_arith)
        requires
            amount_in <= u64::MAX,
            reserve_out <= u64::MAX,
    ;
    let product: u128 = (amount_in as u128) * (reserve_out as u128);
    if reserve_in == 0 {
        return Err(BoomError::Overflow);
    }
    let ideal: u128 = product / (reserve_in as u128);
    Ok(ideal)
}

/// The price impact in basis points, or `Overflow` where `actual` exceeds
/// `ideal` or the 128-bit product does not fit.
pub fn compute_price_impact_bps(ideal: u128, actual: u64) -> (r: Result<u16, BoomError>)
    ensures
        r is Ok <==> ideal == 0 || (actual <= ideal && (ideal - actual) * 10000 <= u128::MAX),
        r matches Ok(bps) ==> bps == price_impact(ideal as int, actual as int) && bps <= 10000,
        r matches Err(e) ==> e == BoomError::Overflow,
{
    if ideal == 0 {
        return Ok(0);
    }
    let shortfall: u128 = match ideal.checked_sub(actual as u128) {
        Some(s) => s,
        None => {
            return Err(BoomError::Overflow);
        },
    };
    let scaled: u128 = match shortfall.checked_mul(10000) {
        Some(s) => s,
        None => {
            return Err(BoomError::Overflow);
        },
    };
    let bps: u128 = scaled / ideal;
    proof {
        assert(scaled <= 10000 * ideal);
        lemma_quotient_at_most(scaled as int, ideal as int, 10000);
        lemma_quotient_at_least(scaled as int, ideal as int, 0);
    }
    Ok(bps as u16)
}

/// The share of `total` owed to `balance`, or `Overflow` where `supply` is
/// zero or the share does not fit.
pub fn compute_payout_share(balance: u64, total: u64, supply: u64) -> (r: Result<u64, BoomError>)
    ensures
        r is Ok <==> supply > 0 && payout_share(balance as int, total as int, supply as int)
            <= u64::MAX,
        r matches Ok(share) ==> share == payout_share(
            balance as int,
            total as int,
            supply as int,
        ),
        r matches Err(e) ==> e == BoomError::Overflow,
        0 < supply && balance <= supply ==> r is Ok,
{
    assert(balance * total <= u128::MAX && balance * total >= 0) by (nonlinear_arith)
        requires
            balance <= u64::MAX,
            total <= u64::MAX,
    ;
    let product: u128 = (balance as u128) * (total as u128);
    if supply == 0 {
        return Err(BoomError::Overflow);
    }
    let share: u128 = product / (supply as u128);
    proof {
        if balance <= supply {
            assert(balance * total <= total * supply) by (nonlinear_arith)
                requires
                    balance <= supply,
                    total >= 0,
            ;
            lemma_quotient_at_most(product as int, supply as int, total as int);
        }
    }
    if share > u64::MAX as u128 {
        return Err(BoomError::Overflow);
    }
    Ok(share as u64)
}

} // verus!
