use vstd::prelude::*;

use crate::error::ErrorCode;
use crate::key::Key;

verus! {

/// Longest pool name, in bytes; the name is part of the pool's address.
pub const MAX_NAME_LEN: usize = 50;

/// Fee settings recorded with a pool.
#[derive(Clone, Copy, Debug, PartialEq, Eq)]
pub struct FeeConfig {
    pub trade_fee_bps: u16,
    pub protocol_fee_bps: u16,
    pub fee_recipient: Key,
}

/// Lifecycle flags of a pool. Deposits and withdrawals are accepted only
/// while it is active and not paused; `is_migrating` is recorded only.
#[derive(Clone, Copy, Debug, PartialEq, Eq, Structural)]
pub struct PoolStatus {
    pub is_active: bool,
    pub is_paused: bool,
    pub is_migrating: bool,
}

/// The canonical record of one trading pair: its tokens and vaults, the
/// virtual reserves tracked while delegated, and the LP supply.
#[derive(Debug)]
pub struct Pool {
    pub version: u8,
    pub authority: Key,
    pub pool_id: u64,
    pub name: String,
    pub lp_mint: Key,
    pub token_a: Key,
    pub token_b: Key,
    pub token_a_vault: Key,
    pub token_b_vault: Key,
    pub reserve_a: u64,
    pub reserve_b: u64,
    pub total_lp_supply: u64,
    pub fees: FeeConfig,
    pub status: PoolStatus,
    pub created_at: i64,
    pub updated_at: i64,
    pub bump: u8,
    pub lp_mint_bump: u8,
    pub token_a_vault_bump: u8,
    pub token_b_vault_bump: u8,
}

/// What an administrator chooses when creating a pool.
#[derive(Debug)]
pub struct AddPoolParams {
    pub pool_id: u64,
    pub name: String,
    pub max_aum_usd: u64,
    pub metadata_title: String,
    pub metadata_symbol: String,
    pub metadata_uri: String,
    pub trade_fees: u16,
    pub protocol_fees: u16,
    pub fee_recipient: Key,
}

/// The addresses and derivation bumps a new pool is created with.
#[derive(Clone, Copy, Debug)]
pub struct InitializeLiquidityPool {
    pub transfer_authority: Key,
    pub lp_mint: Key,
    pub mint_a: Key,
    pub mint_b: Key,
    pub token_vault_a: Key,
    pub token_vault_b: Key,
    pub pool_bump: u8,
    pub lp_mint_bump: u8,
    pub token_vault_a_bump: u8,
    pub token_vault_b_bump: u8,
}

impl Pool {
    /// A pool is empty on all three counts or on none.
    pub open spec fn wf(self) -> bool {
        &&& (self.reserve_a == 0) == (self.reserve_b == 0)
        &&& (self.reserve_b == 0) == (self.total_lp_supply == 0)
    }

    /// Why the pool refuses deposits and withdrawals, if it does.
    pub open spec fn status_error(self) -> Option<ErrorCode> {
        if !self.status.is_active {
            Some(ErrorCode::PoolNotActive)
        } else if self.status.is_paused {
            Some(ErrorCode::PoolPaused)
        } else {
            None
        }
    }

    /// `after` differs from this pool at most in its reserves, its LP supply
    /// and its update time.
    pub open spec fn same_but_amounts(self, after: Pool) -> bool {
        &&& after.version == self.version
        &&& after.authority == self.authority
        &&& after.pool_id == self.pool_id
        &&& after.name@ == self.name@
        &&& after.lp_mint == self.lp_mint
        &&& after.token_a == self.token_a
        &&& after.token_b == self.token_b
        &&& after.token_a_vault == self.token_a_vault
        &&& after.token_b_vault == self.token_b_vault
        &&& after.fees == self.fees
        &&& after.status == self.status
        &&& after.created_at == self.created_at
        &&& after.bump == self.bump
        &&& after.lp_mint_bump == self.lp_mint_bump
        &&& after.token_a_vault_bump == self.token_a_vault_bump
        &&& after.token_b_vault_bump == self.token_b_vault_bump
    }

    /// Refuses with `PoolNotActive` or `PoolPaused` unless the pool accepts
    /// deposits and withdrawals.
    pub fn check_active(&self) -> (r: Result<(), ErrorCode>)
        ensures
            r == (match self.status_error() {
                Some(e) => Err(e),
                None => Ok(()),
            }),
    {
        if !self.status.is_active {
            Err(ErrorCode::PoolNotActive)
        } else if self.status.is_paused {
            Err(ErrorCode::PoolPaused)
        } else {
            Ok(())
        }
    }

    /// Adds a deposit to the reserves and the LP supply, and stamps the
    /// update time. Refuses with `MathOverflow`, changing nothing, where a
    /// sum does not fit.
    pub fn apply_deposit_delta(&mut self, amount_a: u64, amount_b: u64, lp_tokens: u64, now: i64) -> (r:
        Result<(), ErrorCode>)
        ensures
            r is Err <==> (old(self).reserve_a + amount_a > u64::MAX || old(self).reserve_b
                + amount_b > u64::MAX || old(self).total_lp_supply + lp_tokens > u64::MAX),
            r is Err ==> r == Err::<(), ErrorCode>(ErrorCode::MathOverflow) && *final(self)
                == *old(self),
            r is Ok ==> {
                &&& final(self).reserve_a == old(self).reserve_a + amount_a
                &&& final(self).reserve_b == old(self).reserve_b + amount_b
                &&& final(self).total_lp_supply == old(self).total_lp_supply + lp_tokens
                &&& final(self).updated_at == now
                &&& old(self).same_but_amounts(*final(self))
            },
    {
        let a = match self.reserve_a.checked_add(amount_a) {
            Some(v) => v,
            None => {
                return Err(ErrorCode::MathOverflow);
            },
        };
        let b = match self.reserve_b.checked_add(amount_b) {
            Some(v) => v,
            None => {
                return Err(ErrorCode::MathOverflow);
            },
        };
        let lp = match self.total_lp_supply.checked_add(lp_tokens) {
            Some(v) => v,
            None => {
                return Err(ErrorCode::MathOverflow);
            },
        };
        self.reserve_a = a;
        self.reserve_b = b;
        self.total_lp_supply = lp;
        self.updated_at = now;
        Ok(())
    }

    /// Takes a withdrawal out of the reserves and the LP supply, and stamps
    /// the update time. Refuses, changing nothing, with
    /// `InsufficientReserves` where a reserve is short, else with
    /// `MathOverflow` where the LP supply is.
    pub fn apply_withdraw_delta(&mut self, amount_a: u64, amount_b: u64, lp_tokens: u64, now: i64) -> (r:
        Result<(), ErrorCode>)
        ensures
            r == (if old(self).reserve_a < amount_a || old(self).reserve_b < amount_b {
                Err(ErrorCode::InsufficientReserves)
            } else if old(self).total_lp_supply < lp_tokens {
                Err(ErrorCode::MathOverflow)
            } else {
                Ok(())
            }),
            r is Err ==> *final(self) == *old(self),
            r is Ok ==> {
                &&& final(self).reserve_a == old(self).reserve_a - amount_a
                &&& final(self).reserve_b == old(self).reserve_b - amount_b
                &&& final(self).total_lp_supply == old(self).total_lp_supply - lp_tokens
                &&& final(self).updated_at == now
                &&& old(self).same_but_amounts(*final(self))
            },
    {
        if self.reserve_a < amount_a || self.reserve_b < amount_b {
            return Err(ErrorCode::InsufficientReserves);
        }
        if self.total_lp_supply < lp_tokens {
            return Err(ErrorCode::MathOverflow);
        }
        self.reserve_a = self.reserve_a - amount_a;
        self.reserve_b = self.reserve_b - amount_b;
        self.total_lp_supply = self.total_lp_supply - lp_tokens;
        self.updated_at = now;
        Ok(())
    }
}

/// Creates the record of a new, empty and active pool. Refuses with
/// `InvalidAmount` a name longer than [`MAX_NAME_LEN`] bytes.
pub fn initialize_liquidity_pool(
    accounts: &InitializeLiquidityPool,
    params: AddPoolParams,
    now: i64,
) -> (r: Result<Pool, ErrorCode>)
    ensures
        vstd::utf8::encode_utf8(params.name@).len() > MAX_NAME_LEN <==> r is Err,
        r is Err ==> r == Err::<Pool, ErrorCode>(ErrorCode::InvalidAmount),
        r matches Ok(pool) ==> {
            &&& pool.version == 1
            &&& pool.authority == accounts.transfer_authority
            &&& pool.pool_id == params.pool_id
            &&& pool.name@ == params.name@
            &&& pool.lp_mint == accounts.lp_mint
            &&& pool.token_a == accounts.mint_a
            &&& pool.token_b == accounts.mint_b
            &&& pool.token_a_vault == accounts.token_vault_a
            &&& pool.token_b_vault == accounts.token_vault_b
            &&& pool.reserve_a == 0
            &&& pool.reserve_b == 0
            &&& pool.total_lp_supply == 0
            &&& pool.fees == FeeConfig {
                trade_fee_bps: params.trade_fees,
                protocol_fee_bps: params.protocol_fees,
                fee_recipient: params.fee_recipient,
            }
            &&& pool.status == PoolStatus { is_active: true, is_paused: false, is_migrating: false }
            &&& pool.created_at == now
            &&& pool.updated_at == now
            &&& pool.bump == accounts.pool_bump
            &&& pool.lp_mint_bump == accounts.lp_mint_bump
            &&& pool.token_a_vault_bump == accounts.token_vault_a_bump
            &&& pool.token_b_vault_bump == accounts.token_vault_b_bump
            &&& pool.wf()
        },
{
    if params.name.as_str().as_bytes().len() > MAX_NAME_LEN {
        return Err(ErrorCode::InvalidAmount);
    }
    Ok(
        Pool {
            version: 1,
            authority: accounts.transfer_authority,
            pool_id: params.pool_id,
            name: params.name,
            lp_mint: accounts.lp_mint,
            token_a: accounts.mint_a,
            token_b: accounts.mint_b,
            token_a_vault: accounts.token_vault_a,
            token_b_vault: accounts.token_vault_b,
            reserve_a: 0,
            reserve_b: 0,
            total_lp_supply: 0,
            fees: FeeConfig {
                trade_fee_bps: params.trade_fees,
                protocol_fee_bps: params.protocol_fees,
                fee_recipient: params.fee_recipient,
            },
            status: PoolStatus { is_active: true, is_paused: false, is_migrating: false },
            created_at: now,
            updated_at: now,
            bump: accounts.pool_bump,
            lp_mint_bump: accounts.lp_mint_bump,
            token_a_vault_bump: accounts.token_vault_a_bump,
            token_b_vault_bump: accounts.token_vault_b_bump,
        },
    )
}

} // verus!
