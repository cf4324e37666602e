use vstd::prelude::*;

use crate::error::ErrorCode;

verus! {

/// Whether `r` is the integer square root of `n`, rounded down.
pub open spec fn is_floor_sqrt(n: int, r: int) -> bool {
    0 <= r && r * r <= n && n < (r + 1) * (r + 1)
}

/// The integer square root of `n`, rounded down.
pub open spec fn floor_sqrt(n: int) -> int {
    choose|r: int| is_floor_sqrt(n, r)
}

/// The smaller of two integers.
pub open spec fn min_int(x: int, y: int) -> int {
    if x <= y {
        x
    } else {
        y
    }
}

/// LP tokens owed for a deposit of `(amount_a, amount_b)` into a pool with the
/// given reserves and LP supply.
///
/// An empty pool (no LP supply) issues the geometric mean of the two amounts.
/// A non-empty pool issues the smaller of the two proportional shares, so an
/// imbalanced deposit is paid as if only its scarcer side had been deposited.
pub open spec fn mint_amount(
    reserve_a: u64,
    reserve_b: u64,
    total_supply: u64,
    amount_a: u64,
    amount_b: u64,
) -> Result<u64, ErrorCode> {
    if total_supply == 0 {
        Ok(floor_sqrt(amount_a * amount_b) as u64)
    } else if reserve_a == 0 || reserve_b == 0 {
        Err(ErrorCode::InsufficientReserves)
    } else {
        let share = min_int(
            amount_a * total_supply / reserve_a as int,
            amount_b * total_supply / reserve_b as int,
        );
        if share > u64::MAX {
            Err(ErrorCode::MathOverflow)
        } else {
            Ok(share as u64)
        }
    }
}

/// Underlying tokens owed, on each side, for burning `lp_tokens` LP tokens of
/// a pool with the given reserves and LP supply.
pub open spec fn withdraw_amounts(
    reserve_a: u64,
    reserve_b: u64,
    total_supply: u64,
    lp_tokens: u64,
) -> Result<(u64, u64), ErrorCode> {
    if total_supply == 0 {
        Err(ErrorCode::InsufficientLiquidity)
    } else {
        let a = lp_tokens * reserve_a / total_supply as int;
        let b = lp_tokens * reserve_b / total_supply as int;
        if a > u64::MAX || b > u64::MAX {
            Err(ErrorCode::MathOverflow)
        } else {
            Ok((a as u64, b as u64))
        }
    }
}

/// There is exactly one rounded-down square root.
pub proof fn lemma_floor_sqrt_unique(n: int, r: int)
    requires
        is_floor_sqrt(n, r),
    ensures
        floor_sqrt(n) == r,
{
    assert(is_floor_sqrt(n, floor_sqrt(n)));
    let s = floor_sqrt(n);
    if s < r {
        assert((s + 1) * (s + 1) <= r * r) by (nonlinear_arith)
            requires
                0 <= s,
                s + 1 <= r,
        ;
    } else if r < s {
        assert((r + 1) * (r + 1) <= s * s) by (nonlinear_arith)
            requires
                0 <= r,
                r + 1 <= s,
        ;
    }
}

/// Rounded-down square root of a 128-bit integer, by bisection.
pub fn isqrt(n: u128) -> (r: u64)
    ensures
        is_floor_sqrt(n as int, r as int),
        r as int == floor_sqrt(n as int),
{
    let mut lo: u128 = 0;
    let mut hi: u128 = 0x1_0000_0000_0000_0000;
    assert(hi * hi > u128::MAX) by (nonlinear_arith)
        requires
            hi == 0x1_0000_0000_0000_0000u128,
    ;
    while hi - lo > 1
        invariant
            lo < hi <= 0x1_0000_0000_0000_0000,
            lo * lo <= n,
            n < hi * hi,
        decreases hi - lo,
    {
        let mid: u128 = lo + (hi - lo) / 2;
        assert(mid * mid <= u128::MAX) by (nonlinear_arith)
            requires
                mid < 0x1_0000_0000_0000_0000u128,
        ;
        if mid * mid <= n {
            lo = mid;
        } else {
            hi = mid;
        }
    }
    assert(hi == lo + 1);
    proof {
        lemma_floor_sqrt_unique(n as int, lo as int);
    }
    lo as u64
}

/// LP tokens to issue for a deposit; see [`mint_amount`].
///
/// The products are formed in 128 bits, where two 64-bit factors always fit;
/// a share that does not fit back into 64 bits is reported as `MathOverflow`.
pub fn compute_mint_amount(
    reserve_a: u64,
    reserve_b: u64,
    total_supply: u64,
    amount_a: u64,
    amount_b: u64,
) -> (r: Result<u64, ErrorCode>)
    ensures
        r == mint_amount(reserve_a, reserve_b, total_supply, amount_a, amount_b),
{
    if total_supply == 0 {
        assert((amount_a as u128) * (amount_b as u128) <= u128::MAX) by (nonlinear_arith)
            requires
                amount_a <= u64::MAX,
                amount_b <= u64::MAX,
        ;
        let product: u128 = (amount_a as u128) * (amount_b as u128);
        Ok(isqrt(product))
    } else if reserve_a == 0 || reserve_b == 0 {
        Err(ErrorCode::InsufficientReserves)
    } else {
        assert((amount_a as u128) * (total_supply as u128) <= u128::MAX) by (nonlinear_arith)
            requires
                amount_a <= u64::MAX,
                total_supply <= u64::MAX,
        ;
        assert((amount_b as u128) * (total_supply as u128) <= u128::MAX) by (nonlinear_arith)
            requires
                amount_b <= u64::MAX,
                total_supply <= u64::MAX,
        ;
        let share_a: u128 = (amount_a as u128) * (total_supply as u128) / (reserve_a as u128);
        let share_b: u128 = (amount_b as u128) * (total_supply as u128) / (reserve_b as u128);
        let share: u128 = if share_a <= share_b {
            share_a
        } else {
            share_b
        };
        if share > u64::MAX as u128 {
            Err(ErrorCode::MathOverflow)
        } else {
            Ok(share as u64)
        }
    }
}

/// Underlying amounts to pay out for burning LP tokens; see
/// [`withdraw_amounts`].
pub fn compute_withdraw_amounts(
    reserve_a: u64,
    reserve_b: u64,
    total_supply: u64,
    lp_tokens: u64,
) -> (r: Result<(u64, u64), ErrorCode>)
    ensures
        r == withdraw_amounts(reserve_a, reserve_b, total_supply, lp_tokens),
{
    if total_supply == 0 {
        return Err(ErrorCode::InsufficientLiquidity);
    }
    assert((lp_tokens as u128) * (reserve_a as u128) <= u128::MAX) by (nonlinear_arith)
        requires
            lp_tokens <= u64::MAX,
            reserve_a <= u64::MAX,
    ;
    assert((lp_tokens as u128) * (reserve_b as u128) <= u128::MAX) by (nonlinear_arith)
        requires
            lp_tokens <= u64::MAX,
            reserve_b <= u64::MAX,
    ;
    let a: u128 = (lp_tokens as u128) * (reserve_a as u128) / (total_supply as u128);
    let b: u128 = (lp_tokens as u128) * (reserve_b as u128) / (total_supply as u128);
    if a > u64::MAX as u128 || b > u64::MAX as u128 {
        Err(ErrorCode::MathOverflow)
    } else {
        Ok((a as u64, b as u64))
    }
}

/// A rounded-down square root of a 128-bit value fits in 64 bits.
pub proof fn lemma_floor_sqrt_fits(n: int)
    requires
        0 <= n <= u128::MAX,
    ensures
        is_floor_sqrt(n, floor_sqrt(n)),
        0 <= floor_sqrt(n) <= u64::MAX,
{
    let q = isqrt_witness(n);
    lemma_floor_sqrt_unique(n, q);
    let s = floor_sqrt(n);
    if s > u64::MAX {
        assert(s * s > u128::MAX) by (nonlinear_arith)
            requires
                s > u64::MAX,
        ;
    }
}

/// Some rounded-down square root of every non-negative value below 2^128.
proof fn isqrt_witness(n: int) -> (r: int)
    requires
        0 <= n <= u128::MAX,
    ensures
        is_floor_sqrt(n, r),
    decreases n,
{
    if n == 0 {
        assert(is_floor_sqrt(0, 0)) by (nonlinear_arith);
        0
    } else {
        let p = isqrt_witness(n - 1);
        if (p + 1) * (p + 1) <= n {
            assert(0 <= p + 1);
            assert(n < (p + 2) * (p + 2)) by (nonlinear_arith)
                requires
                    n - 1 < (p + 1) * (p + 1),
                    0 <= p,
            ;
            p + 1
        } else {
            assert(p * p <= n);
            p
        }
    }
}

/// Depositing into an empty pool issues exactly the rounded-down geometric
/// mean of the two amounts, and this never overflows.
pub proof fn lemma_bootstrap_mint_is_geometric_mean(
    reserve_a: u64,
    reserve_b: u64,
    amount_a: u64,
    amount_b: u64,
)
    ensures
        mint_amount(reserve_a, reserve_b, 0, amount_a, amount_b) is Ok,
        mint_amount(reserve_a, reserve_b, 0, amount_a, amount_b)->Ok_0 as int == floor_sqrt(
            amount_a * amount_b,
        ),
{
    assert(0 <= amount_a * amount_b <= u128::MAX) by (nonlinear_arith)
        requires
            amount_a <= u64::MAX,
            amount_b <= u64::MAX,
    ;
    lemma_floor_sqrt_fits(amount_a * amount_b);
}

/// Depositing into a non-empty pool never issues more than either
/// proportional share: it issues exactly the smaller one.
pub proof fn lemma_mint_is_min_of_shares(
    reserve_a: u64,
    reserve_b: u64,
    total_supply: u64,
    amount_a: u64,
    amount_b: u64,
)
    requires
        total_supply > 0,
        reserve_a > 0,
        reserve_b > 0,
    ensures
        mint_amount(reserve_a, reserve_b, total_supply, amount_a, amount_b) matches Ok(v) ==> {
            &&& v <= amount_a * total_supply / reserve_a as int
            &&& v <= amount_b * total_supply / reserve_b as int
            &&& (v == amount_a * total_supply / reserve_a as int || v == amount_b * total_supply
                / reserve_b as int)
        },
{
}

/// Depositing two non-zero amounts into an empty pool issues at least one
/// LP token.
pub proof fn lemma_bootstrap_mint_positive(
    reserve_a: u64,
    reserve_b: u64,
    amount_a: u64,
    amount_b: u64,
)
    requires
        amount_a > 0,
        amount_b > 0,
    ensures
        mint_amount(reserve_a, reserve_b, 0, amount_a, amount_b) matches Ok(lp) && lp > 0,
        mint_amount(reserve_a, reserve_b, 0, amount_a, amount_b)->Ok_0 as int == floor_sqrt(
            amount_a * amount_b,
        ),
{
    lemma_bootstrap_mint_is_geometric_mean(reserve_a, reserve_b, amount_a, amount_b);
    assert(1 <= amount_a * amount_b <= u128::MAX) by (nonlinear_arith)
        requires
            1 <= amount_a <= u64::MAX,
            1 <= amount_b <= u64::MAX,
    ;
    lemma_floor_sqrt_fits(amount_a * amount_b);
    let lp = floor_sqrt(amount_a * amount_b);
    assert(lp >= 1) by (nonlinear_arith)
        requires
            is_floor_sqrt(amount_a * amount_b, lp),
            1 <= amount_a * amount_b,
    ;
}

/// Depositing `(a, b)` into an empty pool and then burning every LP token it
/// issued pays back exactly `(a, b)`.
pub proof fn lemma_deposit_withdraw_round_trip(amount_a: u64, amount_b: u64)
    requires
        amount_a > 0,
        amount_b > 0,
    ensures
        mint_amount(0, 0, 0, amount_a, amount_b) matches Ok(lp) && lp > 0 && withdraw_amounts(
            amount_a,
            amount_b,
            lp,
            lp,
        ) == Ok::<(u64, u64), ErrorCode>((amount_a, amount_b)),
{
    lemma_bootstrap_mint_positive(0, 0, amount_a, amount_b);
    let lp = floor_sqrt(amount_a * amount_b);
    vstd::arithmetic::div_mod::lemma_div_multiples_vanish(amount_a as int, lp);
    vstd::arithmetic::div_mod::lemma_div_multiples_vanish(amount_b as int, lp);
}

/// A deposit into a pool that holds LP supply but no reserve on one side is
/// refused with `InsufficientReserves`, before any division.
pub proof fn lemma_empty_reserve_is_refused(
    reserve_a: u64,
    reserve_b: u64,
    total_supply: u64,
    amount_a: u64,
    amount_b: u64,
)
    requires
        total_supply > 0,
        reserve_a == 0 || reserve_b == 0,
    ensures
        mint_amount(reserve_a, reserve_b, total_supply, amount_a, amount_b) == Err::<u64, ErrorCode>(
            ErrorCode::InsufficientReserves,
        ),
{
}

/// No amount is ever wrapped or truncated: the pool either pays the exact
/// rounded-down quotient or reports `MathOverflow` when it does not fit in
/// 64 bits.
pub proof fn lemma_overflow_is_reported(
    reserve_a: u64,
    reserve_b: u64,
    total_supply: u64,
    amount_a: u64,
    amount_b: u64,
    lp_tokens: u64,
)
    requires
        total_supply > 0,
    ensures
        reserve_a > 0 && reserve_b > 0 ==> {
            let share = min_int(
                amount_a * total_supply / reserve_a as int,
                amount_b * total_supply / reserve_b as int,
            );
            &&& share > u64::MAX ==> mint_amount(
                reserve_a,
                reserve_b,
                total_supply,
                amount_a,
                amount_b,
            ) == Err::<u64, ErrorCode>(ErrorCode::MathOverflow)
            &&& share <= u64::MAX ==> mint_amount(
                reserve_a,
                reserve_b,
                total_supply,
                amount_a,
                amount_b,
            ) == Ok::<u64, ErrorCode>(share as u64)
        },
        ({
            let a = lp_tokens * reserve_a / total_supply as int;
            let b = lp_tokens * reserve_b / total_supply as int;
            &&& (a > u64::MAX || b > u64::MAX) ==> withdraw_amounts(
                reserve_a,
                reserve_b,
                total_supply,
                lp_tokens,
            ) == Err::<(u64, u64), ErrorCode>(ErrorCode::MathOverflow)
            &&& (a <= u64::MAX && b <= u64::MAX) ==> withdraw_amounts(
                reserve_a,
                reserve_b,
                total_supply,
                lp_tokens,
            ) == Ok::<(u64, u64), ErrorCode>((a as u64, b as u64))
        }),
{
}

} // verus!
