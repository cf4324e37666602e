use vstd::prelude::*;

use crate::error::ErrorCode;
use crate::key::{unset_key, Key};

verus! {

/// Number of pools a provider can hold positions in at once.
pub const MAX_POOLS: usize = 10;

/// One provider's position in one pool.
///
/// A slot whose `pool` is the unset address is empty and free for reuse.
#[derive(Clone, Copy, Debug, PartialEq, Eq)]
pub struct LiquidityPoolInfo {
    pub pool: Key,
    pub token_mint: Key,
    pub liquidity_amount: u64,
    pub lp_tokens: u64,
}

/// The empty slot.
pub open spec fn empty_slot() -> LiquidityPoolInfo {
    LiquidityPoolInfo {
        pool: unset_key(),
        token_mint: unset_key(),
        liquidity_amount: 0,
        lp_tokens: 0,
    }
}

impl Default for LiquidityPoolInfo {
    fn default() -> (r: LiquidityPoolInfo)
        ensures
            r == empty_slot(),
    {
        LiquidityPoolInfo {
            pool: Key::unset(),
            token_mint: Key::unset(),
            liquidity_amount: 0,
            lp_tokens: 0,
        }
    }
}

/// The positions of one liquidity provider, in a fixed table of slots.
#[derive(Clone, Copy, Debug, PartialEq, Eq)]
pub struct LiquidityProvider {
    pub provider: Key,
    pub total_liquidity_provided: u64,
    pub total_lp_tokens: u64,
    pub liquidity_pools_info: [LiquidityPoolInfo; 10],
    pub latest_liquidity_provided_on: i64,
    pub bump: u8,
}

/// Whether `i` is the first slot of `s` bound to `key`.
pub open spec fn is_first_slot(s: Seq<LiquidityPoolInfo>, key: Key, i: int) -> bool {
    &&& 0 <= i < s.len()
    &&& s[i].pool == key
    &&& forall|j: int| 0 <= j < i ==> s[j].pool != key
}

/// Whether some slot of `s` is bound to `key`.
pub open spec fn has_slot(s: Seq<LiquidityPoolInfo>, key: Key) -> bool {
    exists|i: int| 0 <= i < s.len() && s[i].pool == key
}

/// The first slot of `s` bound to `key`, where there is one.
pub open spec fn slot_index(s: Seq<LiquidityPoolInfo>, key: Key) -> int {
    choose|i: int| is_first_slot(s, key, i)
}

/// The slot a deposit into `pool` lands in: the slot already bound to it, or
/// else the first empty slot; -1 where there is neither.
pub open spec fn deposit_slot(s: Seq<LiquidityPoolInfo>, pool: Key) -> int {
    if has_slot(s, pool) {
        slot_index(s, pool)
    } else if has_slot(s, unset_key()) {
        slot_index(s, unset_key())
    } else {
        -1
    }
}

/// Sum of the LP tokens held in the slots of `s`.
pub open spec fn sum_lp_tokens(s: Seq<LiquidityPoolInfo>) -> int
    decreases s.len(),
{
    if s.len() == 0 {
        0
    } else {
        sum_lp_tokens(s.drop_last()) + s.last().lp_tokens
    }
}

/// Sum of the liquidity recorded in the slots of `s`.
pub open spec fn sum_liquidity(s: Seq<LiquidityPoolInfo>) -> int
    decreases s.len(),
{
    if s.len() == 0 {
        0
    } else {
        sum_liquidity(s.drop_last()) + s.last().liquidity_amount
    }
}

/// The first slot bound to `key` exists exactly when some slot is, and is
/// the only first one.
pub proof fn lemma_slot_index(s: Seq<LiquidityPoolInfo>, key: Key)
    ensures
        has_slot(s, key) ==> is_first_slot(s, key, slot_index(s, key)),
        forall|i: int| is_first_slot(s, key, i) ==> i == slot_index(s, key),
{
    if has_slot(s, key) {
        let k = choose|i: int| 0 <= i < s.len() && s[i].pool == key;
        lemma_first_below(s, key, k);
    }
    assert forall|i: int| is_first_slot(s, key, i) implies i == slot_index(s, key) by {
        lemma_first_below(s, key, i);
        let c = slot_index(s, key);
        assert(is_first_slot(s, key, c));
    }
}

/// Below any slot bound to `key` there is a first one.
proof fn lemma_first_below(s: Seq<LiquidityPoolInfo>, key: Key, k: int)
    requires
        0 <= k < s.len(),
        s[k].pool == key,
    ensures
        exists|i: int| is_first_slot(s, key, i),
    decreases k,
{
    if exists|j: int| 0 <= j < k && s[j].pool == key {
        let j = choose|j: int| 0 <= j < k && s[j].pool == key;
        lemma_first_below(s, key, j);
    } else {
        assert(is_first_slot(s, key, k));
    }
}

/// Replacing one slot changes each sum by the difference in that slot.
pub proof fn lemma_sums_update(s: Seq<LiquidityPoolInfo>, i: int, x: LiquidityPoolInfo)
    requires
        0 <= i < s.len(),
    ensures
        sum_lp_tokens(s.update(i, x)) == sum_lp_tokens(s) - s[i].lp_tokens + x.lp_tokens,
        sum_liquidity(s.update(i, x)) == sum_liquidity(s) - s[i].liquidity_amount
            + x.liquidity_amount,
    decreases s.len(),
{
    let t = s.update(i, x);
    if i == s.len() - 1 {
        assert(t.drop_last() =~= s.drop_last());
    } else {
        assert(t.drop_last() =~= s.drop_last().update(i, x));
        lemma_sums_update(s.drop_last(), i, x);
    }
}

/// Each slot holds no more than the sums.
pub proof fn lemma_slot_below_sums(s: Seq<LiquidityPoolInfo>, i: int)
    requires
        0 <= i < s.len(),
    ensures
        s[i].lp_tokens <= sum_lp_tokens(s),
        s[i].liquidity_amount <= sum_liquidity(s),
    decreases s.len(),
{
    lemma_sums_nonneg(s.drop_last());
    if i < s.len() - 1 {
        lemma_slot_below_sums(s.drop_last(), i);
    }
}

/// The sums are never negative.
pub proof fn lemma_sums_nonneg(s: Seq<LiquidityPoolInfo>)
    ensures
        sum_lp_tokens(s) >= 0,
        sum_liquidity(s) >= 0,
    decreases s.len(),
{
    if s.len() > 0 {
        lemma_sums_nonneg(s.drop_last());
    }
}

impl LiquidityProvider {
    /// The slot table as a sequence.
    pub open spec fn slots(self) -> Seq<LiquidityPoolInfo> {
        self.liquidity_pools_info@
    }

    /// The table's invariant: an empty slot is all zero, no pool has two
    /// slots, the slots' LP tokens add up to `total_lp_tokens`, and their
    /// liquidity adds up to no more than `total_liquidity_provided` (a slot
    /// reclaimed with liquidity left in it drops that remainder).
    pub open spec fn wf(self) -> bool {
        let s = self.slots();
        &&& forall|i: int| 0 <= i < s.len() && s[i].pool == unset_key() ==> s[i] == empty_slot()
        &&& forall|i: int, j: int|
            0 <= i < j < s.len() && s[i].pool != unset_key() ==> s[i].pool != s[j].pool
        &&& sum_lp_tokens(s) == self.total_lp_tokens
        &&& sum_liquidity(s) <= self.total_liquidity_provided
    }

    /// Why a deposit of `liquidity_amount` and `lp_tokens` into `pool` is
    /// refused, if it is.
    pub open spec fn deposit_error(self, pool: Key, liquidity_amount: u64, lp_tokens: u64) -> Option<
        ErrorCode,
    > {
        let s = self.slots();
        let i = deposit_slot(s, pool);
        if pool == unset_key() {
            Some(ErrorCode::InvalidAmount)
        } else if i < 0 {
            Some(ErrorCode::MaxPoolsReached)
        } else if s[i].liquidity_amount + liquidity_amount > u64::MAX || s[i].lp_tokens + lp_tokens
            > u64::MAX || self.total_liquidity_provided + liquidity_amount > u64::MAX
            || self.total_lp_tokens + lp_tokens > u64::MAX {
            Some(ErrorCode::MathOverflow)
        } else {
            None
        }
    }

    /// `after` is this table with a deposit into `pool` recorded.
    pub open spec fn deposited(
        self,
        after: Self,
        pool: Key,
        lp_mint: Key,
        liquidity_amount: u64,
        lp_tokens: u64,
        now: i64,
    ) -> bool {
        let s = self.slots();
        let i = deposit_slot(s, pool);
        &&& after.slots() == s.update(
            i,
            LiquidityPoolInfo {
                pool,
                token_mint: lp_mint,
                liquidity_amount: (s[i].liquidity_amount + liquidity_amount) as u64,
                lp_tokens: (s[i].lp_tokens + lp_tokens) as u64,
            },
        )
        &&& after.total_liquidity_provided == self.total_liquidity_provided + liquidity_amount
        &&& after.total_lp_tokens == self.total_lp_tokens + lp_tokens
        &&& after.latest_liquidity_provided_on == now
        &&& after.provider == self.provider
        &&& after.bump == self.bump
    }

    /// Why a withdrawal of `liquidity_amount` and `lp_tokens` from `pool` is
    /// refused, if it is.
    pub open spec fn withdraw_error(self, pool: Key, liquidity_amount: u64, lp_tokens: u64) -> Option<
        ErrorCode,
    > {
        let s = self.slots();
        let i = slot_index(s, pool);
        if pool == unset_key() || !has_slot(s, pool) {
            Some(ErrorCode::ProviderNotFound)
        } else if s[i].liquidity_amount < liquidity_amount {
            Some(ErrorCode::InsufficientLiquidity)
        } else if s[i].lp_tokens < lp_tokens {
            Some(ErrorCode::InsufficientLpTokens)
        } else if self.total_liquidity_provided < liquidity_amount || self.total_lp_tokens
            < lp_tokens {
            Some(ErrorCode::MathOverflow)
        } else {
            None
        }
    }

    /// `after` is this table with a withdrawal from `pool` recorded: the slot
    /// is reduced, and reset to empty once it holds no LP tokens.
    pub open spec fn withdrawn(
        self,
        after: Self,
        pool: Key,
        liquidity_amount: u64,
        lp_tokens: u64,
        now: i64,
    ) -> bool {
        let s = self.slots();
        let i = slot_index(s, pool);
        let slot = if s[i].lp_tokens == lp_tokens {
            empty_slot()
        } else {
            LiquidityPoolInfo {
                pool: s[i].pool,
                token_mint: s[i].token_mint,
                liquidity_amount: (s[i].liquidity_amount - liquidity_amount) as u64,
                lp_tokens: (s[i].lp_tokens - lp_tokens) as u64,
            }
        };
        &&& after.slots() == s.update(i, slot)
        &&& after.total_liquidity_provided == self.total_liquidity_provided - liquidity_amount
        &&& after.total_lp_tokens == self.total_lp_tokens - lp_tokens
        &&& after.latest_liquidity_provided_on == now
        &&& after.provider == self.provider
        &&& after.bump == self.bump
    }

    /// A provider with no positions.
    pub fn new(provider: Key, bump: u8) -> (r: LiquidityProvider)
        ensures
            r.provider == provider,
            r.bump == bump,
            r.total_liquidity_provided == 0,
            r.total_lp_tokens == 0,
            r.latest_liquidity_provided_on == 0,
            forall|i: int| 0 <= i < MAX_POOLS ==> #[trigger] r.slots()[i] == empty_slot(),
            r.wf(),
    {
        let empty = LiquidityPoolInfo::default();
        let r = LiquidityProvider {
            provider,
            total_liquidity_provided: 0,
            total_lp_tokens: 0,
            liquidity_pools_info: [empty; 10],
            latest_liquidity_provided_on: 0,
            bump,
        };
        proof {
            let s = r.slots();
            assert(s.len() == 10);
            assert forall|k: int| 0 <= k <= 10 implies sum_lp_tokens(#[trigger] s.take(k)) == 0
                && sum_liquidity(s.take(k)) == 0 by {
                lemma_zero_prefix(s, k);
            }
            assert(s.take(10) =~= s);
        }
        r
    }

    /// The first slot bound to `key`, if any.
    pub fn find_slot(&self, key: &Key) -> (r: Option<usize>)
        ensures
            r matches Some(i) ==> is_first_slot(self.slots(), *key, i as int),
            r is None ==> !has_slot(self.slots(), *key),
    {
        let mut i: usize = 0;
        while i < MAX_POOLS
            invariant
                0 <= i <= MAX_POOLS,
                self.slots().len() == MAX_POOLS,
                forall|j: int| 0 <= j < i ==> self.slots()[j].pool != *key,
            decreases MAX_POOLS - i,
        {
            if self.liquidity_pools_info[i].pool.same(key) {
                return Some(i);
            }
            i = i + 1;
        }
        None
    }

    /// Records a deposit of `liquidity_amount` and `lp_tokens` into `pool`:
    /// into the slot already bound to it, or else the first empty slot, which
    /// it binds. Nothing changes when it fails.
    pub fn apply_deposit(
        &mut self,
        pool: Key,
        lp_mint: Key,
        liquidity_amount: u64,
        lp_tokens: u64,
        now: i64,
    ) -> (r: Result<(), ErrorCode>)
        ensures
            r == (match old(self).deposit_error(pool, liquidity_amount, lp_tokens) {
                Some(e) => Err(e),
                None => Ok(()),
            }),
            r is Ok ==> old(self).deposited(
                *final(self),
                pool,
                lp_mint,
                liquidity_amount,
                lp_tokens,
                now,
            ),
            r is Err ==> *final(self) == *old(self),
            old(self).wf() ==> final(self).wf(),
    {
        proof {
            lemma_slot_index(self.slots(), pool);
            lemma_slot_index(self.slots(), unset_key());
        }
        if pool.is_unset() {
            return Err(ErrorCode::InvalidAmount);
        }
        let index = match self.find_slot(&pool) {
            Some(i) => i,
            None => {
                let z = Key::unset();
                match self.find_slot(&z) {
                    Some(i) => i,
                    None => {
                        return Err(ErrorCode::MaxPoolsReached);
                    },
                }
            },
        };
        assert(index as int == deposit_slot(self.slots(), pool));
        let slot = self.liquidity_pools_info[index];
        let new_liquidity = match slot.liquidity_amount.checked_add(liquidity_amount) {
            Some(v) => v,
            None => {
                return Err(ErrorCode::MathOverflow);
            },
        };
        let new_lp = match slot.lp_tokens.checked_add(lp_tokens) {
            Some(v) => v,
            None => {
                return Err(ErrorCode::MathOverflow);
            },
        };
        let total_liquidity = match self.total_liquidity_provided.checked_add(liquidity_amount) {
            Some(v) => v,
            None => {
                return Err(ErrorCode::MathOverflow);
            },
        };
        let total_lp = match self.total_lp_tokens.checked_add(lp_tokens) {
            Some(v) => v,
            None => {
                return Err(ErrorCode::MathOverflow);
            },
        };
        let ghost before = *self;
        let new_slot = LiquidityPoolInfo {
            pool,
            token_mint: lp_mint,
            liquidity_amount: new_liquidity,
            lp_tokens: new_lp,
        };
        self.liquidity_pools_info[index] = new_slot;
        self.total_liquidity_provided = total_liquidity;
        self.total_lp_tokens = total_lp;
        self.latest_liquidity_provided_on = now;
        proof {
            let s = before.slots();
            let t = self.slots();
            assert(t == s.update(index as int, new_slot));
            lemma_sums_update(s, index as int, new_slot);
            if before.wf() {
                assert forall|i: int, j: int|
                    0 <= i < j < t.len() && t[i].pool != unset_key() implies t[i].pool
                    != t[j].pool by {
                    if i != index && j != index {
                        assert(s[i].pool != s[j].pool);
                    } else if i == index {
                        if has_slot(s, pool) {
                            assert(s[i].pool == pool);
                        } else {
                            assert(s[j].pool != pool);
                        }
                    } else {
                        if has_slot(s, pool) {
                            assert(s[j].pool == pool);
                            assert(s[i].pool != s[j].pool);
                        } else {
                            assert(s[i].pool != pool);
                        }
                    }
                }
            }
        }
        Ok(())
    }

    /// Records a withdrawal of `liquidity_amount` and `lp_tokens` from the
    /// slot bound to `pool`; the slot is reset to empty when its LP tokens
    /// reach zero, whatever liquidity it still records. Nothing changes when
    /// it fails.
    pub fn apply_withdraw(&mut self, pool: Key, liquidity_amount: u64, lp_tokens: u64, now: i64) -> (r:
        Result<(), ErrorCode>)
        ensures
            r == (match old(self).withdraw_error(pool, liquidity_amount, lp_tokens) {
                Some(e) => Err(e),
                None => Ok(()),
            }),
            r is Ok ==> old(self).withdrawn(*final(self), pool, liquidity_amount, lp_tokens, now),
            r is Err ==> *final(self) == *old(self),
            old(self).wf() ==> final(self).wf(),
            old(self).wf() ==> r != Err::<(), ErrorCode>(ErrorCode::MathOverflow),
    {
        proof {
            lemma_slot_index(self.slots(), pool);
        }
        if pool.is_unset() {
            return Err(ErrorCode::ProviderNotFound);
        }
        let index = match self.find_slot(&pool) {
            Some(i) => i,
            None => {
                return Err(ErrorCode::ProviderNotFound);
            },
        };
        let slot = self.liquidity_pools_info[index];
        proof {
            if self.wf() {
                lemma_slot_below_sums(self.slots(), index as int);
            }
        }
        if slot.liquidity_amount < liquidity_amount {
            return Err(ErrorCode::InsufficientLiquidity);
        }
        if slot.lp_tokens < lp_tokens {
            return Err(ErrorCode::InsufficientLpTokens);
        }
        if self.total_liquidity_provided < liquidity_amount || self.total_lp_tokens < lp_tokens {
            return Err(ErrorCode::MathOverflow);
        }
        let ghost before = *self;
        let new_slot = if slot.lp_tokens == lp_tokens {
            LiquidityPoolInfo::default()
        } else {
            LiquidityPoolInfo {
                pool: slot.pool,
                token_mint: slot.token_mint,
                liquidity_amount: slot.liquidity_amount - liquidity_amount,
                lp_tokens: slot.lp_tokens - lp_tokens,
            }
        };
        self.liquidity_pools_info[index] = new_slot;
        self.total_liquidity_provided = self.total_liquidity_provided - liquidity_amount;
        self.total_lp_tokens = self.total_lp_tokens - lp_tokens;
        self.latest_liquidity_provided_on = now;
        proof {
            let s = before.slots();
            let t = self.slots();
            assert(t == s.update(index as int, new_slot));
            lemma_sums_update(s, index as int, new_slot);
            if before.wf() {
                assert forall|i: int, j: int|
                    0 <= i < j < t.len() && t[i].pool != unset_key() implies t[i].pool
                    != t[j].pool by {
                    if i != index && j != index {
                        assert(s[i].pool != s[j].pool);
                    } else if j == index && new_slot.pool != unset_key() {
                        assert(s[i].pool != s[j].pool);
                    }
                }
            }
        }
        Ok(())
    }

    /// Whether the table holds its invariant; see [`LiquidityProvider::wf`].
    pub fn is_consistent(&self) -> (r: bool)
        ensures
            r == self.wf(),
    {
        let mut sum_lp: u128 = 0;
        let mut sum_liq: u128 = 0;
        let mut i: usize = 0;
        while i < MAX_POOLS
            invariant
                0 <= i <= MAX_POOLS,
                self.slots().len() == MAX_POOLS,
                sum_lp == sum_lp_tokens(self.slots().take(i as int)),
                sum_liq == sum_liquidity(self.slots().take(i as int)),
                sum_lp <= i * u64::MAX,
                sum_liq <= i * u64::MAX,
                forall|k: int|
                    0 <= k < i && self.slots()[k].pool == unset_key() ==> self.slots()[k]
                        == empty_slot(),
                forall|k: int, m: int|
                    0 <= k < m < i && self.slots()[k].pool != unset_key() ==> self.slots()[k].pool
                        != self.slots()[m].pool,
            decreases MAX_POOLS - i,
        {
            let slot = self.liquidity_pools_info[i];
            proof {
                assert(self.slots().take(i + 1).drop_last() =~= self.slots().take(i as int));
            }
            if slot.pool.is_unset() {
                let z = Key::unset();
                if !slot.token_mint.same(&z) || slot.liquidity_amount != 0 || slot.lp_tokens != 0 {
                    return false;
                }
            } else {
                let mut k: usize = 0;
                while k < i
                    invariant
                        0 <= k <= i < MAX_POOLS,
                        self.slots().len() == MAX_POOLS,
                        slot == self.slots()[i as int],
                        slot.pool != unset_key(),
                        forall|m: int| 0 <= m < k ==> self.slots()[m].pool != slot.pool,
                    decreases i - k,
                {
                    if self.liquidity_pools_info[k].pool.same(&slot.pool) {
                        return false;
                    }
                    k = k + 1;
                }
            }
            sum_lp = sum_lp + slot.lp_tokens as u128;
            sum_liq = sum_liq + slot.liquidity_amount as u128;
            i = i + 1;
        }
        proof {
            assert(self.slots().take(10) =~= self.slots());
        }
        sum_lp == self.total_lp_tokens as u128 && sum_liq <= self.total_liquidity_provided as u128
    }
}

/// Every prefix of an all-empty table sums to zero.
proof fn lemma_zero_prefix(s: Seq<LiquidityPoolInfo>, k: int)
    requires
        0 <= k <= s.len(),
        forall|i: int| 0 <= i < s.len() ==> s[i] == empty_slot(),
    ensures
        sum_lp_tokens(s.take(k)) == 0,
        sum_liquidity(s.take(k)) == 0,
    decreases k,
{
    if k > 0 {
        assert(s.take(k).drop_last() =~= s.take(k - 1));
        lemma_zero_prefix(s, k - 1);
    }
}

/// A provider with no positions.
pub fn initialize_liquidity_provider(provider: Key, bump: u8) -> (r: LiquidityProvider)
    ensures
        r.provider == provider,
        r.bump == bump,
        r.total_liquidity_provided == 0,
        r.total_lp_tokens == 0,
        r.latest_liquidity_provided_on == 0,
        forall|i: int| 0 <= i < MAX_POOLS ==> #[trigger] r.slots()[i] == empty_slot(),
        r.wf(),
{
    LiquidityProvider::new(provider, bump)
}

/// Withdrawing every LP token a provider holds in a pool resets that slot to
/// empty and leaves no slot bound to the pool; a deposit into another pool
/// that the provider holds no position in then finds a free slot.
pub proof fn lemma_reclaimed_slot_is_reusable(
    provider: LiquidityProvider,
    after: LiquidityProvider,
    pool: Key,
    liquidity_amount: u64,
    lp_tokens: u64,
    now: i64,
    other: Key,
    other_liquidity: u64,
    other_lp_tokens: u64,
)
    requires
        provider.wf(),
        provider.withdraw_error(pool, liquidity_amount, lp_tokens) is None,
        lp_tokens == provider.slots()[slot_index(provider.slots(), pool)].lp_tokens,
        provider.withdrawn(after, pool, liquidity_amount, lp_tokens, now),
        other != unset_key(),
        !has_slot(after.slots(), other),
    ensures
        after.slots()[slot_index(provider.slots(), pool)] == empty_slot(),
        !has_slot(after.slots(), pool),
        0 <= deposit_slot(after.slots(), other) < MAX_POOLS,
        after.slots()[deposit_slot(after.slots(), other)] == empty_slot(),
        after.deposit_error(other, other_liquidity, other_lp_tokens) != Some(
            ErrorCode::MaxPoolsReached,
        ),
{
    let s = provider.slots();
    let t = after.slots();
    let i = slot_index(s, pool);
    lemma_slot_index(s, pool);
    assert(t[i] == empty_slot());
    assert(has_slot(t, unset_key()));
    lemma_slot_index(t, unset_key());
    assert forall|j: int| 0 <= j < t.len() implies t[j].pool != pool by {
        if j != i {
            if j < i {
                assert(s[j].pool != pool);
            } else {
                assert(s[i].pool != s[j].pool);
            }
        }
    }
}

/// A provider whose every slot is bound to some other pool cannot open a
/// position in one more: the deposit is refused with `MaxPoolsReached`.
pub proof fn lemma_full_table_refuses_new_pool(
    provider: LiquidityProvider,
    pool: Key,
    liquidity_amount: u64,
    lp_tokens: u64,
)
    requires
        pool != unset_key(),
        forall|i: int|
            0 <= i < MAX_POOLS ==> #[trigger] provider.slots()[i].pool != unset_key()
                && provider.slots()[i].pool != pool,
    ensures
        deposit_slot(provider.slots(), pool) == -1,
        provider.deposit_error(pool, liquidity_amount, lp_tokens) == Some(
            ErrorCode::MaxPoolsReached,
        ),
{
}

} // verus!
