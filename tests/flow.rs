use liquidity_pool::error::ErrorCode;
use liquidity_pool::flow::{
    add_liquidity_er, deposit_liquidity, remove_liquidity_er, remove_liquidity_on_chain,
    CommitAndAddLiquidityParams, DepositRecept, RemoveLiquidityParams, WithdrawRecept,
};
use liquidity_pool::key::Key;
use liquidity_pool::pool::{initialize_liquidity_pool, AddPoolParams, InitializeLiquidityPool, Pool};
use liquidity_pool::position::{initialize_liquidity_provider, LiquidityPoolInfo, LiquidityProvider};

fn key(n: u8) -> Key {
    let mut b = [0u8; 32];
    b[0] = n;
    Key::new(b)
}

fn accounts() -> InitializeLiquidityPool {
    InitializeLiquidityPool {
        transfer_authority: key(1),
        lp_mint: key(2),
        mint_a: key(3),
        mint_b: key(4),
        token_vault_a: key(5),
        token_vault_b: key(6),
        pool_bump: 250,
        lp_mint_bump: 251,
        token_vault_a_bump: 252,
        token_vault_b_bump: 253,
    }
}

fn params(name: &str) -> AddPoolParams {
    AddPoolParams {
        pool_id: 9,
        name: name.to_string(),
        max_aum_usd: 1_000_000,
        metadata_title: "LP".to_string(),
        metadata_symbol: "LP".to_string(),
        metadata_uri: "uri".to_string(),
        trade_fees: 30,
        protocol_fees: 5,
        fee_recipient: key(7),
    }
}

fn new_pool() -> Pool {
    initialize_liquidity_pool(&accounts(), params("sol-usdc"), 100).unwrap()
}

const POOL: u8 = 50;
const USER: u8 = 60;

fn deposit(amount_a: u64, amount_b: u64, min_lp_tokens: u64) -> CommitAndAddLiquidityParams {
    CommitAndAddLiquidityParams { user: key(USER), amount_a, amount_b, min_lp_tokens }
}

fn funded_pool() -> (Pool, LiquidityProvider) {
    let mut pool = new_pool();
    let mut provider = initialize_liquidity_provider(key(USER), 1);
    let receipt = deposit_liquidity(&pool, key(POOL), 1000, 1000, &deposit(400, 900, 0)).unwrap();
    add_liquidity_er(&mut pool, &mut provider, key(POOL), &receipt, 200).unwrap();
    (pool, provider)
}

#[test]
fn new_pool_is_empty_and_active() {
    let pool = new_pool();
    assert_eq!(pool.version, 1);
    assert_eq!(pool.name, "sol-usdc");
    assert_eq!(pool.authority, key(1));
    assert_eq!(pool.lp_mint, key(2));
    assert_eq!(pool.token_b_vault, key(6));
    assert_eq!((pool.reserve_a, pool.reserve_b, pool.total_lp_supply), (0, 0, 0));
    assert!(pool.status.is_active && !pool.status.is_paused && !pool.status.is_migrating);
    assert_eq!(pool.fees.trade_fee_bps, 30);
    assert_eq!(pool.fees.protocol_fee_bps, 5);
    assert_eq!(pool.fees.fee_recipient, key(7));
    assert_eq!((pool.created_at, pool.updated_at), (100, 100));
    assert_eq!(pool.token_b_vault_bump, 253);
}

#[test]
fn long_pool_name_is_refused() {
    let name = "x".repeat(51);
    assert_eq!(
        initialize_liquidity_pool(&accounts(), params(&name), 0).err(),
        Some(ErrorCode::InvalidAmount)
    );
    let name = "x".repeat(50);
    assert!(initialize_liquidity_pool(&accounts(), params(&name), 0).is_ok());
}

#[test]
fn deposit_records_receipt() {
    let pool = new_pool();
    let r = deposit_liquidity(&pool, key(POOL), 400, 900, &deposit(400, 900, 600));
    assert_eq!(
        r,
        Ok(DepositRecept {
            pool: key(POOL),
            liquidity_provider: key(USER),
            amount_a: 400,
            amount_b: 900,
            lp_tokens_minted: 600,
        })
    );
}

#[test]
fn deposit_refusals() {
    let mut pool = new_pool();
    assert_eq!(
        deposit_liquidity(&pool, key(POOL), 1000, 1000, &deposit(0, 900, 0)),
        Err(ErrorCode::InvalidAmount)
    );
    assert_eq!(
        deposit_liquidity(&pool, key(POOL), 399, 1000, &deposit(400, 900, 0)),
        Err(ErrorCode::InsufficientFunds)
    );
    assert_eq!(
        deposit_liquidity(&pool, key(POOL), 1000, 1000, &deposit(400, 900, 601)),
        Err(ErrorCode::SlippageExceeded)
    );
    pool.status.is_paused = true;
    assert_eq!(
        deposit_liquidity(&pool, key(POOL), 1000, 1000, &deposit(400, 900, 0)),
        Err(ErrorCode::PoolPaused)
    );
    pool.status.is_active = false;
    assert_eq!(
        deposit_liquidity(&pool, key(POOL), 1000, 1000, &deposit(400, 900, 0)),
        Err(ErrorCode::PoolNotActive)
    );
}

#[test]
fn deposit_earning_nothing_is_accepted_at_zero_minimum() {
    let mut pool = new_pool();
    pool.reserve_a = 2;
    pool.reserve_b = 2;
    pool.total_lp_supply = 1;
    // both shares are 1 * 1 / 2, which rounds down to nothing
    assert_eq!(
        deposit_liquidity(&pool, key(POOL), 10, 10, &deposit(1, 1, 0)).map(|r| r.lp_tokens_minted),
        Ok(0)
    );
    assert_eq!(
        deposit_liquidity(&pool, key(POOL), 10, 10, &deposit(1, 1, 1)),
        Err(ErrorCode::SlippageExceeded)
    );
}

#[test]
fn delegated_deposit_of_zero_promise() {
    let (mut pool, mut provider) = funded_pool();
    let receipt = deposit_liquidity(&pool, key(POOL), 10, 10, &deposit(1, 1, 0)).unwrap();
    assert_eq!(receipt.lp_tokens_minted, 0);
    assert_eq!(add_liquidity_er(&mut pool, &mut provider, key(POOL), &receipt, 300), Ok(()));
    assert_eq!((pool.reserve_a, pool.reserve_b, pool.total_lp_supply), (401, 901, 600));
    assert_eq!(provider.total_lp_tokens, 600);

    let mut empty = new_pool();
    let zero = DepositRecept { lp_tokens_minted: 0, ..receipt };
    assert_eq!(
        add_liquidity_er(&mut empty, &mut provider, key(POOL), &zero, 300),
        Err(ErrorCode::InvalidAmount)
    );
}

#[test]
fn delegated_deposit_applies_receipt() {
    let (pool, provider) = funded_pool();
    assert_eq!((pool.reserve_a, pool.reserve_b, pool.total_lp_supply), (400, 900, 600));
    assert_eq!(pool.updated_at, 200);
    let slot = provider.liquidity_pools_info[0];
    assert_eq!(slot.pool, key(POOL));
    assert_eq!(slot.token_mint, key(2));
    assert_eq!(slot.liquidity_amount, 1300);
    assert_eq!(slot.lp_tokens, 600);
    assert_eq!(provider.total_lp_tokens, 600);
    assert!(provider.is_consistent());
}

#[test]
fn delegated_deposit_refuses_stale_promise() {
    let (mut pool, mut provider) = funded_pool();
    let receipt = DepositRecept {
        pool: key(POOL),
        liquidity_provider: key(USER),
        amount_a: 40,
        amount_b: 90,
        lp_tokens_minted: 61,
    };
    let (p0, q0) = (pool.total_lp_supply, provider);
    assert_eq!(
        add_liquidity_er(&mut pool, &mut provider, key(POOL), &receipt, 300),
        Err(ErrorCode::SlippageExceeded)
    );
    assert_eq!((pool.total_lp_supply, provider), (p0, q0));
    let receipt = DepositRecept { lp_tokens_minted: 60, ..receipt };
    assert_eq!(add_liquidity_er(&mut pool, &mut provider, key(POOL), &receipt, 300), Ok(()));
    assert_eq!((pool.reserve_a, pool.reserve_b, pool.total_lp_supply), (440, 990, 660));
}

#[test]
fn delegated_deposit_refuses_full_position_table() {
    let (mut pool, _) = funded_pool();
    let mut provider = initialize_liquidity_provider(key(USER), 1);
    for n in 1..=10u8 {
        provider.apply_deposit(key(n), key(2), 1, 1, 0).unwrap();
    }
    let receipt = deposit_liquidity(&pool, key(POOL), 1000, 1000, &deposit(40, 90, 0)).unwrap();
    assert_eq!(
        add_liquidity_er(&mut pool, &mut provider, key(POOL), &receipt, 300),
        Err(ErrorCode::MaxPoolsReached)
    );
    assert_eq!((pool.reserve_a, pool.reserve_b, pool.total_lp_supply), (400, 900, 600));
}

#[test]
fn withdrawal_round_trip_empties_pool_and_slot() {
    let (mut pool, mut provider) = funded_pool();
    let request = RemoveLiquidityParams {
        lp_tokens_to_burn: 600,
        min_amount_a: 400,
        min_amount_b: 900,
        pool: key(POOL),
    };
    let receipt = remove_liquidity_on_chain(&pool, key(USER), 600, 400, 900, &request).unwrap();
    assert_eq!(
        receipt,
        WithdrawRecept {
            pool: key(POOL),
            liquidity_provider: key(USER),
            lp_tokens_to_burn: 600,
            amount_a_withdrawn: 400,
            amount_b_withdrawn: 900,
        }
    );
    assert_eq!(remove_liquidity_er(&mut pool, &mut provider, key(POOL), &receipt, 400), Ok(()));
    assert_eq!((pool.reserve_a, pool.reserve_b, pool.total_lp_supply), (0, 0, 0));
    assert_eq!(provider.liquidity_pools_info[0], LiquidityPoolInfo::default());
    assert_eq!(provider.total_lp_tokens, 0);
    assert_eq!(pool.updated_at, 400);
}

#[test]
fn partial_withdrawal_keeps_reserves() {
    let (mut pool, mut provider) = funded_pool();
    let request = RemoveLiquidityParams {
        lp_tokens_to_burn: 200,
        min_amount_a: 1,
        min_amount_b: 1,
        pool: key(POOL),
    };
    let receipt = remove_liquidity_on_chain(&pool, key(USER), 600, 400, 900, &request).unwrap();
    assert_eq!((receipt.amount_a_withdrawn, receipt.amount_b_withdrawn), (133, 300));
    assert_eq!(remove_liquidity_er(&mut pool, &mut provider, key(POOL), &receipt, 400), Ok(()));
    assert_eq!((pool.reserve_a, pool.reserve_b, pool.total_lp_supply), (267, 600, 400));
    assert_eq!(provider.liquidity_pools_info[0].lp_tokens, 400);
    assert_eq!(provider.liquidity_pools_info[0].liquidity_amount, 867);
}

#[test]
fn withdrawal_refusals() {
    let (pool, _) = funded_pool();
    let request = RemoveLiquidityParams {
        lp_tokens_to_burn: 300,
        min_amount_a: 1,
        min_amount_b: 1,
        pool: key(POOL),
    };
    assert_eq!(
        remove_liquidity_on_chain(&pool, key(USER), 299, 400, 900, &request),
        Err(ErrorCode::InsufficientLpTokens)
    );
    assert_eq!(
        remove_liquidity_on_chain(&pool, key(USER), 600, 199, 900, &request),
        Err(ErrorCode::InsufficientFunds)
    );
    let greedy = RemoveLiquidityParams { min_amount_a: 201, ..request };
    assert_eq!(
        remove_liquidity_on_chain(&pool, key(USER), 600, 400, 900, &greedy),
        Err(ErrorCode::SlippageExceeded)
    );
    let zero = RemoveLiquidityParams { lp_tokens_to_burn: 0, ..request };
    assert_eq!(
        remove_liquidity_on_chain(&pool, key(USER), 600, 400, 900, &zero),
        Err(ErrorCode::InvalidAmount)
    );
}

#[test]
fn delegated_withdrawal_beyond_slot_is_refused() {
    let (mut pool, mut provider) = funded_pool();
    let receipt = WithdrawRecept {
        pool: key(POOL),
        liquidity_provider: key(USER),
        lp_tokens_to_burn: 601,
        amount_a_withdrawn: 400,
        amount_b_withdrawn: 901,
    };
    let before = provider;
    assert_eq!(
        remove_liquidity_er(&mut pool, &mut provider, key(POOL), &receipt, 400),
        Err(ErrorCode::InsufficientLpTokens)
    );
    assert_eq!(provider, before);
    assert_eq!((pool.reserve_a, pool.reserve_b, pool.total_lp_supply), (400, 900, 600));
    assert_eq!(pool.updated_at, 200);
}

#[test]
fn delegated_withdrawal_applies_frozen_amounts_after_drift() {
    let (mut pool, mut provider) = funded_pool();
    let request = RemoveLiquidityParams {
        lp_tokens_to_burn: 300,
        min_amount_a: 1,
        min_amount_b: 1,
        pool: key(POOL),
    };
    let receipt = remove_liquidity_on_chain(&pool, key(USER), 600, 400, 900, &request).unwrap();
    assert_eq!((receipt.amount_a_withdrawn, receipt.amount_b_withdrawn), (200, 450));
    // another provider's deposit lands between the two phases
    let mut other = initialize_liquidity_provider(key(61), 1);
    let drift = deposit_liquidity(&pool, key(POOL), 1000, 1000, &deposit(4, 9, 0)).unwrap();
    add_liquidity_er(&mut pool, &mut other, key(POOL), &drift, 300).unwrap();
    assert_eq!((pool.reserve_a, pool.reserve_b, pool.total_lp_supply), (404, 909, 606));
    assert_eq!(remove_liquidity_er(&mut pool, &mut provider, key(POOL), &receipt, 400), Ok(()));
    assert_eq!((pool.reserve_a, pool.reserve_b, pool.total_lp_supply), (204, 459, 306));
    assert_eq!(provider.liquidity_pools_info[0].lp_tokens, 300);
}

#[test]
fn delegated_withdrawal_refusals() {
    let (mut pool, mut provider) = funded_pool();
    let receipt = WithdrawRecept {
        pool: key(POOL),
        liquidity_provider: key(USER),
        lp_tokens_to_burn: 300,
        amount_a_withdrawn: 401,
        amount_b_withdrawn: 450,
    };
    assert_eq!(
        remove_liquidity_er(&mut pool, &mut provider, key(POOL), &receipt, 400),
        Err(ErrorCode::InsufficientReserves)
    );
    assert_eq!(
        remove_liquidity_er(&mut pool, &mut provider, key(99), &receipt, 400),
        Err(ErrorCode::ProviderNotFound)
    );
    let zero = WithdrawRecept { lp_tokens_to_burn: 0, ..receipt };
    assert_eq!(
        remove_liquidity_er(&mut pool, &mut provider, key(POOL), &zero, 400),
        Err(ErrorCode::InvalidAmount)
    );
    assert_eq!((pool.reserve_a, pool.reserve_b, pool.total_lp_supply), (400, 900, 600));
}

#[test]
fn mint_amount_is_taken_once() {
    let mut receipt = DepositRecept {
        pool: key(POOL),
        liquidity_provider: key(USER),
        amount_a: 4,
        amount_b: 9,
        lp_tokens_minted: 6,
    };
    assert_eq!(receipt.take_mint_amount(), 6);
    assert_eq!(receipt.take_mint_amount(), 0);
    assert_eq!(receipt.amount_b, 9);
}
