use vstd::prelude::*;

use crate::amm::{compute_mint_amount, compute_withdraw_amounts, mint_amount, withdraw_amounts};
use crate::error::ErrorCode;
use crate::key::{unset_key, Key};
use crate::pool::Pool;
use crate::position::{has_slot, slot_index, LiquidityProvider};

verus! {

/// What a base-ledger deposit promised: the tokens moved into the vaults and
/// the LP tokens owed for them. The state update and the mint both use these
/// frozen numbers.
#[derive(Clone, Copy, Debug, PartialEq, Eq)]
pub struct DepositRecept {
    pub pool: Key,
    pub liquidity_provider: Key,
    pub amount_a: u64,
    pub amount_b: u64,
    pub lp_tokens_minted: u64,
}

/// What a base-ledger withdrawal did: the LP tokens burned and the tokens
/// paid out of the vaults for them.
#[derive(Clone, Copy, Debug, PartialEq, Eq)]
pub struct WithdrawRecept {
    pub pool: Key,
    pub liquidity_provider: Key,
    pub lp_tokens_to_burn: u64,
    pub amount_a_withdrawn: u64,
    pub amount_b_withdrawn: u64,
}

/// A provider's request to deposit both tokens of a pool.
#[derive(Clone, Copy, Debug)]
pub struct CommitAndAddLiquidityParams {
    pub user: Key,
    pub amount_a: u64,
    pub amount_b: u64,
    pub min_lp_tokens: u64,
}

/// A provider's request to burn LP tokens of a pool for its tokens.
#[derive(Clone, Copy, Debug)]
pub struct RemoveLiquidityParams {
    pub lp_tokens_to_burn: u64,
    pub min_amount_a: u64,
    pub min_amount_b: u64,
    pub pool: Key,
}

/// The error of `e`, or success.
pub open spec fn result_of(e: Option<ErrorCode>) -> Result<(), ErrorCode> {
    match e {
        Some(e) => Err(e),
        None => Ok(()),
    }
}

/// The receipt a base-ledger deposit into `pool` (at `pool_key`) records,
/// given the provider's balances of the two tokens, or why it is refused.
pub open spec fn deposit_outcome(
    pool: Pool,
    pool_key: Key,
    balance_a: u64,
    balance_b: u64,
    params: CommitAndAddLiquidityParams,
) -> Result<DepositRecept, ErrorCode> {
    if pool.status_error() is Some {
        Err(pool.status_error()->Some_0)
    } else if params.amount_a == 0 || params.amount_b == 0 {
        Err(ErrorCode::InvalidAmount)
    } else if balance_a < params.amount_a || balance_b < params.amount_b {
        Err(ErrorCode::InsufficientFunds)
    } else {
        match mint_amount(
            pool.reserve_a,
            pool.reserve_b,
            pool.total_lp_supply,
            params.amount_a,
            params.amount_b,
        ) {
            Err(e) => Err(e),
            Ok(lp) => if lp < params.min_lp_tokens {
                Err(ErrorCode::SlippageExceeded)
            } else {
                Ok(
                    DepositRecept {
                        pool: pool_key,
                        liquidity_provider: params.user,
                        amount_a: params.amount_a,
                        amount_b: params.amount_b,
                        lp_tokens_minted: lp,
                    },
                )
            },
        }
    }
}

/// The receipt a base-ledger withdrawal from `pool` records, given the
/// provider's LP-token balance and the vaults' balances, or why it is
/// refused.
pub open spec fn withdraw_outcome(
    pool: Pool,
    provider: Key,
    lp_balance: u64,
    vault_a: u64,
    vault_b: u64,
    params: RemoveLiquidityParams,
) -> Result<WithdrawRecept, ErrorCode> {
    if pool.status_error() is Some {
        Err(pool.status_error()->Some_0)
    } else if params.lp_tokens_to_burn == 0 || params.min_amount_a == 0 || params.min_amount_b
        == 0 {
        Err(ErrorCode::InvalidAmount)
    } else if lp_balance < params.lp_tokens_to_burn {
        Err(ErrorCode::InsufficientLpTokens)
    } else {
        match withdraw_amounts(
            pool.reserve_a,
            pool.reserve_b,
            pool.total_lp_supply,
            params.lp_tokens_to_burn,
        ) {
            Err(e) => Err(e),
            Ok((a, b)) => if a < params.min_amount_a || b < params.min_amount_b {
                Err(ErrorCode::SlippageExceeded)
            } else if vault_a < a || vault_b < b {
                Err(ErrorCode::InsufficientFunds)
            } else {
                Ok(
                    WithdrawRecept {
                        pool: params.pool,
                        liquidity_provider: provider,
                        lp_tokens_to_burn: params.lp_tokens_to_burn,
                        amount_a_withdrawn: a,
                        amount_b_withdrawn: b,
                    },
                )
            },
        }
    }
}

/// Why the delegated-context update for a deposit receipt is refused, if it
/// is.
pub open spec fn add_liquidity_er_error(
    pool: Pool,
    provider: LiquidityProvider,
    pool_key: Key,
    receipt: DepositRecept,
) -> Option<ErrorCode> {
    if pool.status_error() is Some {
        pool.status_error()
    } else if receipt.amount_a == 0 || receipt.amount_b == 0 || (pool.total_lp_supply == 0
        && receipt.lp_tokens_minted == 0) {
        Some(ErrorCode::InvalidAmount)
    } else {
        match mint_amount(
            pool.reserve_a,
            pool.reserve_b,
            pool.total_lp_supply,
            receipt.amount_a,
            receipt.amount_b,
        ) {
            Err(e) => Some(e),
            Ok(lp) => if lp < receipt.lp_tokens_minted {
                Some(ErrorCode::SlippageExceeded)
            } else if pool.reserve_a + receipt.amount_a > u64::MAX || pool.reserve_b
                + receipt.amount_b > u64::MAX || pool.total_lp_supply + receipt.lp_tokens_minted
                > u64::MAX || receipt.amount_a + receipt.amount_b > u64::MAX {
                Some(ErrorCode::MathOverflow)
            } else {
                provider.deposit_error(
                    pool_key,
                    (receipt.amount_a + receipt.amount_b) as u64,
                    receipt.lp_tokens_minted,
                )
            },
        }
    }
}

/// Why the delegated-context update for a withdrawal receipt is refused, if
/// it is.
pub open spec fn remove_liquidity_er_error(
    pool: Pool,
    provider: LiquidityProvider,
    pool_key: Key,
    receipt: WithdrawRecept,
) -> Option<ErrorCode> {
    let s = provider.slots();
    let lp = receipt.lp_tokens_to_burn;
    let a = receipt.amount_a_withdrawn;
    let b = receipt.amount_b_withdrawn;
    if pool.status_error() is Some {
        pool.status_error()
    } else if lp == 0 {
        Some(ErrorCode::InvalidAmount)
    } else if pool_key == unset_key() || !has_slot(s, pool_key) {
        Some(ErrorCode::ProviderNotFound)
    } else if s[slot_index(s, pool_key)].lp_tokens < lp {
        Some(ErrorCode::InsufficientLpTokens)
    } else if pool.reserve_a < a || pool.reserve_b < b {
        Some(ErrorCode::InsufficientReserves)
    } else if pool.total_lp_supply < lp || a + b > u64::MAX {
        Some(ErrorCode::MathOverflow)
    } else {
        provider.withdraw_error(pool_key, (a + b) as u64, lp)
    }
}

/// Base-ledger phase of a deposit: checks the request against the pool's
/// committed state and the provider's balances, and computes the receipt to
/// record. The caller then moves the tokens into the vaults and stores the
/// receipt; no LP token is minted yet.
pub fn deposit_liquidity(
    pool: &Pool,
    pool_key: Key,
    balance_a: u64,
    balance_b: u64,
    params: &CommitAndAddLiquidityParams,
) -> (r: Result<DepositRecept, ErrorCode>)
    ensures
        r == deposit_outcome(*pool, pool_key, balance_a, balance_b, *params),
{
    pool.check_active()?;
    if params.amount_a == 0 || params.amount_b == 0 {
        return Err(ErrorCode::InvalidAmount);
    }
    if balance_a < params.amount_a || balance_b < params.amount_b {
        return Err(ErrorCode::InsufficientFunds);
    }
    let lp = compute_mint_amount(
        pool.reserve_a,
        pool.reserve_b,
        pool.total_lp_supply,
        params.amount_a,
        params.amount_b,
    )?;
    if lp < params.min_lp_tokens {
        return Err(ErrorCode::SlippageExceeded);
    }
    Ok(
        DepositRecept {
            pool: pool_key,
            liquidity_provider: params.user,
            amount_a: params.amount_a,
            amount_b: params.amount_b,
            lp_tokens_minted: lp,
        },
    )
}

/// Base-ledger phase of a withdrawal: checks the request against the pool's
/// committed state, the provider's LP-token balance and the vaults, and
/// computes the receipt to record. The caller then burns the LP tokens, pays
/// the amounts out of the vaults and stores the receipt.
///
/// The amounts are the LP tokens' share of the pool's committed reserves and
/// LP supply, as for a deposit; the vault balances only have to cover them.
pub fn remove_liquidity_on_chain(
    pool: &Pool,
    provider: Key,
    lp_balance: u64,
    vault_a: u64,
    vault_b: u64,
    params: &RemoveLiquidityParams,
) -> (r: Result<WithdrawRecept, ErrorCode>)
    ensures
        r == withdraw_outcome(*pool, provider, lp_balance, vault_a, vault_b, *params),
{
    pool.check_active()?;
    if params.lp_tokens_to_burn == 0 || params.min_amount_a == 0 || params.min_amount_b == 0 {
        return Err(ErrorCode::InvalidAmount);
    }
    if lp_balance < params.lp_tokens_to_burn {
        return Err(ErrorCode::InsufficientLpTokens);
    }
    let (a, b) = compute_withdraw_amounts(
        pool.reserve_a,
        pool.reserve_b,
        pool.total_lp_supply,
        params.lp_tokens_to_burn,
    )?;
    if a < params.min_amount_a || b < params.min_amount_b {
        return Err(ErrorCode::SlippageExceeded);
    }
    if vault_a < a || vault_b < b {
        return Err(ErrorCode::InsufficientFunds);
    }
    Ok(
        WithdrawRecept {
            pool: params.pool,
            liquidity_provider: provider,
            lp_tokens_to_burn: params.lp_tokens_to_burn,
            amount_a_withdrawn: a,
            amount_b_withdrawn: b,
        },
    )
}

/// Delegated-context phase of a deposit: applies the receipt's frozen
/// numbers to the pool's reserves and LP supply and to the provider's
/// position in the pool at `pool_key`.
///
/// The LP tokens the receipt promised must still be covered by what its
/// amounts are worth against the current state (`SlippageExceeded`
/// otherwise). Nothing changes when it fails.
pub fn add_liquidity_er(
    pool: &mut Pool,
    provider: &mut LiquidityProvider,
    pool_key: Key,
    receipt: &DepositRecept,
    now: i64,
) -> (r: Result<(), ErrorCode>)
    ensures
        r == result_of(add_liquidity_er_error(*old(pool), *old(provider), pool_key, *receipt)),
        r is Err ==> *final(pool) == *old(pool) && *final(provider) == *old(provider),
        r is Ok ==> {
            &&& final(pool).reserve_a == old(pool).reserve_a + receipt.amount_a
            &&& final(pool).reserve_b == old(pool).reserve_b + receipt.amount_b
            &&& final(pool).total_lp_supply == old(pool).total_lp_supply
                + receipt.lp_tokens_minted
            &&& final(pool).updated_at == now
            &&& old(pool).same_but_amounts(*final(pool))
            &&& old(provider).deposited(
                *final(provider),
                pool_key,
                old(pool).lp_mint,
                (receipt.amount_a + receipt.amount_b) as u64,
                receipt.lp_tokens_minted,
                now,
            )
        },
        old(pool).wf() ==> final(pool).wf(),
        old(provider).wf() ==> final(provider).wf(),
{
    pool.check_active()?;
    if receipt.amount_a == 0 || receipt.amount_b == 0 || (pool.total_lp_supply == 0
        && receipt.lp_tokens_minted == 0) {
        return Err(ErrorCode::InvalidAmount);
    }
    let lp = compute_mint_amount(
        pool.reserve_a,
        pool.reserve_b,
        pool.total_lp_supply,
        receipt.amount_a,
        receipt.amount_b,
    )?;
    if lp < receipt.lp_tokens_minted {
        return Err(ErrorCode::SlippageExceeded);
    }
    if pool.reserve_a.checked_add(receipt.amount_a).is_none() || pool.reserve_b.checked_add(
        receipt.amount_b,
    ).is_none() || pool.total_lp_supply.checked_add(receipt.lp_tokens_minted).is_none() {
        return Err(ErrorCode::MathOverflow);
    }
    let liquidity = match receipt.amount_a.checked_add(receipt.amount_b) {
        Some(v) => v,
        None => {
            return Err(ErrorCode::MathOverflow);
        },
    };
    provider.apply_deposit(pool_key, pool.lp_mint, liquidity, receipt.lp_tokens_minted, now)?;
    let applied = pool.apply_deposit_delta(
        receipt.amount_a,
        receipt.amount_b,
        receipt.lp_tokens_minted,
        now,
    );
    assert(applied is Ok);
    Ok(())
}

/// Delegated-context phase of a withdrawal: applies the receipt's frozen
/// numbers to the pool's reserves and LP supply and to the provider's
/// position in the pool at `pool_key`.
///
/// The amounts are not computed again: the tokens were paid out already, so
/// a change of the reserves between the two phases does not refuse the
/// update. It is refused only where the numbers cannot be applied: LP tokens
/// the position does not hold, a reserve or the LP supply smaller than what
/// the receipt takes out. Nothing changes when it fails. The pool stays
/// consistent whenever the receipt pays what its LP tokens are worth against
/// the current state.
pub fn remove_liquidity_er(
    pool: &mut Pool,
    provider: &mut LiquidityProvider,
    pool_key: Key,
    receipt: &WithdrawRecept,
    now: i64,
) -> (r: Result<(), ErrorCode>)
    ensures
        r == result_of(remove_liquidity_er_error(*old(pool), *old(provider), pool_key, *receipt)),
        r is Err ==> *final(pool) == *old(pool) && *final(provider) == *old(provider),
        r is Ok ==> {
            &&& final(pool).reserve_a == old(pool).reserve_a - receipt.amount_a_withdrawn
            &&& final(pool).reserve_b == old(pool).reserve_b - receipt.amount_b_withdrawn
            &&& final(pool).total_lp_supply == old(pool).total_lp_supply
                - receipt.lp_tokens_to_burn
            &&& final(pool).updated_at == now
            &&& old(pool).same_but_amounts(*final(pool))
            &&& old(provider).withdrawn(
                *final(provider),
                pool_key,
                (receipt.amount_a_withdrawn + receipt.amount_b_withdrawn) as u64,
                receipt.lp_tokens_to_burn,
                now,
            )
        },
        old(pool).wf() && withdraw_amounts(
            old(pool).reserve_a,
            old(pool).reserve_b,
            old(pool).total_lp_supply,
            receipt.lp_tokens_to_burn,
        ) == Ok::<(u64, u64), ErrorCode>((receipt.amount_a_withdrawn, receipt.amount_b_withdrawn))
            ==> final(pool).wf(),
        old(provider).wf() ==> final(provider).wf(),
{
    proof {
        crate::position::lemma_slot_index(provider.slots(), pool_key);
    }
    pool.check_active()?;
    let lp = receipt.lp_tokens_to_burn;
    let a = receipt.amount_a_withdrawn;
    let b = receipt.amount_b_withdrawn;
    if lp == 0 {
        return Err(ErrorCode::InvalidAmount);
    }
    if pool_key.is_unset() {
        return Err(ErrorCode::ProviderNotFound);
    }
    let index = match provider.find_slot(&pool_key) {
        Some(i) => i,
        None => {
            return Err(ErrorCode::ProviderNotFound);
        },
    };
    if provider.liquidity_pools_info[index].lp_tokens < lp {
        return Err(ErrorCode::InsufficientLpTokens);
    }
    if pool.reserve_a < a || pool.reserve_b < b {
        return Err(ErrorCode::InsufficientReserves);
    }
    if pool.total_lp_supply < lp {
        return Err(ErrorCode::MathOverflow);
    }
    let liquidity = match a.checked_add(b) {
        Some(v) => v,
        None => {
            return Err(ErrorCode::MathOverflow);
        },
    };
    proof {
        let ts = old(pool).total_lp_supply as int;
        if old(pool).wf() && withdraw_amounts(
            old(pool).reserve_a,
            old(pool).reserve_b,
            old(pool).total_lp_supply,
            lp,
        ) == Ok::<(u64, u64), ErrorCode>((a, b)) {
            if lp < ts {
                lemma_partial_share_below_reserve(lp as int, old(pool).reserve_a as int, ts);
                lemma_partial_share_below_reserve(lp as int, old(pool).reserve_b as int, ts);
            } else {
                vstd::arithmetic::div_mod::lemma_div_multiples_vanish(
                    old(pool).reserve_a as int,
                    lp as int,
                );
                vstd::arithmetic::div_mod::lemma_div_multiples_vanish(
                    old(pool).reserve_b as int,
                    lp as int,
                );
            }
        }
    }
    provider.apply_withdraw(pool_key, liquidity, lp, now)?;
    let applied = pool.apply_withdraw_delta(a, b, lp, now);
    assert(applied is Ok);
    Ok(())
}

/// Burning part of the LP supply pays out strictly less than the whole of a
/// non-empty reserve.
proof fn lemma_partial_share_below_reserve(lp: int, reserve: int, supply: int)
    requires
        0 <= lp < supply,
        reserve > 0,
    ensures
        lp * reserve / supply < reserve,
{
    assert(lp * reserve < reserve * supply) by (nonlinear_arith)
        requires
            0 <= lp < supply,
            reserve > 0,
    ;
    vstd::arithmetic::div_mod::lemma_div_by_multiple_is_strongly_ordered(
        lp * reserve,
        reserve * supply,
        reserve,
        supply,
    );
    vstd::arithmetic::div_mod::lemma_div_multiples_vanish(reserve, supply);
    assert(supply * reserve == reserve * supply) by (nonlinear_arith);
}

/// A receipt issued by the base-ledger deposit into the pool at `pool_key`
/// is accepted by the delegated phase against the same pool state: its
/// promise is never found stale, and
/// the only refusals left are the provider's table being full or a sum not
/// fitting.
pub proof fn lemma_fresh_deposit_receipt_is_honoured(
    pool: Pool,
    pool_key: Key,
    balance_a: u64,
    balance_b: u64,
    params: CommitAndAddLiquidityParams,
    provider: LiquidityProvider,
)
    requires
        deposit_outcome(pool, pool_key, balance_a, balance_b, params) is Ok,
        pool_key != unset_key(),
    ensures
        ({
            let receipt = deposit_outcome(pool, pool_key, balance_a, balance_b, params)->Ok_0;
            let e = add_liquidity_er_error(pool, provider, pool_key, receipt);
            e is None || e == Some(ErrorCode::MaxPoolsReached) || e == Some(
                ErrorCode::MathOverflow,
            )
        }),
{
    if pool.total_lp_supply == 0 {
        crate::amm::lemma_bootstrap_mint_positive(
            pool.reserve_a,
            pool.reserve_b,
            params.amount_a,
            params.amount_b,
        );
    }
}

/// A receipt issued by the base-ledger withdrawal is accepted by the
/// delegated phase against the same pool state, for a provider whose
/// position covers it, and the amounts it paid out are exactly what its LP
/// tokens are worth there, so applying it keeps the pool consistent.
pub proof fn lemma_fresh_withdraw_receipt_is_honoured(
    pool: Pool,
    provider_key: Key,
    lp_balance: u64,
    vault_a: u64,
    vault_b: u64,
    params: RemoveLiquidityParams,
    provider: LiquidityProvider,
    pool_key: Key,
)
    requires
        withdraw_outcome(pool, provider_key, lp_balance, vault_a, vault_b, params) is Ok,
        provider.wf(),
        pool_key != unset_key(),
        has_slot(provider.slots(), pool_key),
        provider.slots()[slot_index(provider.slots(), pool_key)].lp_tokens
            >= params.lp_tokens_to_burn,
        pool.total_lp_supply >= params.lp_tokens_to_burn,
    ensures
        ({
            let receipt = withdraw_outcome(
                pool,
                provider_key,
                lp_balance,
                vault_a,
                vault_b,
                params,
            )->Ok_0;
            let e = remove_liquidity_er_error(pool, provider, pool_key, receipt);
            e is None || e == Some(ErrorCode::MathOverflow) || e == Some(
                ErrorCode::InsufficientLiquidity,
            )
        }),
        ({
            let receipt = withdraw_outcome(
                pool,
                provider_key,
                lp_balance,
                vault_a,
                vault_b,
                params,
            )->Ok_0;
            withdraw_amounts(
                pool.reserve_a,
                pool.reserve_b,
                pool.total_lp_supply,
                receipt.lp_tokens_to_burn,
            ) == Ok::<(u64, u64), ErrorCode>(
                (receipt.amount_a_withdrawn, receipt.amount_b_withdrawn),
            )
        }),
{
    let lp = params.lp_tokens_to_burn as int;
    let ts = pool.total_lp_supply as int;
    assert(lp * pool.reserve_a <= ts * pool.reserve_a) by (nonlinear_arith)
        requires
            0 <= lp <= ts,
            pool.reserve_a >= 0,
    ;
    assert(lp * pool.reserve_b <= ts * pool.reserve_b) by (nonlinear_arith)
        requires
            0 <= lp <= ts,
            pool.reserve_b >= 0,
    ;
    vstd::arithmetic::div_mod::lemma_div_multiples_vanish(pool.reserve_a as int, ts);
    vstd::arithmetic::div_mod::lemma_div_multiples_vanish(pool.reserve_b as int, ts);
    vstd::arithmetic::div_mod::lemma_div_is_ordered(lp * pool.reserve_a, ts * pool.reserve_a, ts);
    vstd::arithmetic::div_mod::lemma_div_is_ordered(lp * pool.reserve_b, ts * pool.reserve_b, ts);
    crate::position::lemma_slot_index(provider.slots(), pool_key);
    crate::position::lemma_slot_below_sums(
        provider.slots(),
        slot_index(provider.slots(), pool_key),
    );
}

/// A pool that is inactive or paused refuses every deposit and withdrawal,
/// in both phases, with the reason of its status.
pub proof fn lemma_gated_pool_refuses_all(
    pool: Pool,
    pool_key: Key,
    provider_key: Key,
    provider: LiquidityProvider,
    balance_a: u64,
    balance_b: u64,
    lp_balance: u64,
    vault_a: u64,
    vault_b: u64,
    deposit: CommitAndAddLiquidityParams,
    withdrawal: RemoveLiquidityParams,
    deposit_receipt: DepositRecept,
    withdraw_receipt: WithdrawRecept,
)
    requires
        pool.status_error() is Some,
    ensures
        deposit_outcome(pool, pool_key, balance_a, balance_b, deposit) == Err::<
            DepositRecept,
            ErrorCode,
        >(pool.status_error()->Some_0),
        withdraw_outcome(pool, provider_key, lp_balance, vault_a, vault_b, withdrawal)
            == Err::<WithdrawRecept, ErrorCode>(pool.status_error()->Some_0),
        add_liquidity_er_error(pool, provider, pool_key, deposit_receipt) == pool.status_error(),
        remove_liquidity_er_error(pool, provider, pool_key, withdraw_receipt)
            == pool.status_error(),
{
}

impl DepositRecept {
    /// Hands out the LP tokens still owed by this receipt and marks them as
    /// minted, so that a replayed mint hands out nothing.
    pub fn take_mint_amount(&mut self) -> (r: u64)
        ensures
            r == old(self).lp_tokens_minted,
            final(self).lp_tokens_minted == 0,
            final(self).pool == old(self).pool,
            final(self).liquidity_provider == old(self).liquidity_provider,
            final(self).amount_a == old(self).amount_a,
            final(self).amount_b == old(self).amount_b,
    {
        let r = self.lp_tokens_minted;
        self.lp_tokens_minted = 0;
        r
    }
}

} // verus!
