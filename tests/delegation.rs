use liquidity_pool::delegation::{
    delegate_deposit_receipt, delegate_liquidity_provider, delegate_pool,
    delegate_remove_liquidity_receipt, pool_seeds, Authority, DelegateConfig,
};
use liquidity_pool::error::ErrorCode;
use liquidity_pool::key::Key;
use liquidity_pool::pool::{initialize_liquidity_pool, AddPoolParams, InitializeLiquidityPool};

fn key(n: u8) -> Key {
    let mut b = [0u8; 32];
    b[0] = n;
    Key::new(b)
}

fn config(ms: u32, v: u8) -> DelegateConfig {
    DelegateConfig { commit_frequency_ms: ms, validator: Some(key(v)) }
}

#[test]
fn delegate_then_undelegate() {
    let mut a = Authority::BaseOwned;
    assert!(!a.is_delegated());
    assert_eq!(a.commit(), Err(ErrorCode::NotDelegated));
    assert_eq!(a.delegate(config(30_000, 3)), Ok(()));
    assert_eq!(a, Authority::Delegated(config(30_000, 3)));
    assert_eq!(a.commit(), Ok(()));
    assert_eq!(a.delegate(config(10, 4)), Err(ErrorCode::AlreadyDelegated));
    assert_eq!(a, Authority::Delegated(config(30_000, 3)));
    assert_eq!(a.commit_and_undelegate(), Ok(()));
    assert_eq!(a, Authority::BaseOwned);
    assert_eq!(a.commit_and_undelegate(), Err(ErrorCode::NotDelegated));
}

#[test]
fn pool_is_delegated_under_its_name() {
    let accounts = InitializeLiquidityPool {
        transfer_authority: key(1),
        lp_mint: key(2),
        mint_a: key(3),
        mint_b: key(4),
        token_vault_a: key(5),
        token_vault_b: key(6),
        pool_bump: 1,
        lp_mint_bump: 2,
        token_vault_a_bump: 3,
        token_vault_b_bump: 4,
    };
    let params = AddPoolParams {
        pool_id: 1,
        name: "ab".to_string(),
        max_aum_usd: 0,
        metadata_title: String::new(),
        metadata_symbol: String::new(),
        metadata_uri: String::new(),
        trade_fees: 0,
        protocol_fees: 0,
        fee_recipient: key(7),
    };
    let pool = initialize_liquidity_pool(&accounts, params, 0).unwrap();
    let mut a = Authority::BaseOwned;
    let req = delegate_pool(&pool, &mut a, 500, key(8)).unwrap();
    assert_eq!(req.seeds, vec![b"pool".to_vec(), b"ab".to_vec()]);
    assert_eq!(req.config, config(500, 8));
    assert_eq!(a, Authority::Delegated(config(500, 8)));
    assert_eq!(delegate_pool(&pool, &mut a, 1, key(9)).err(), Some(ErrorCode::AlreadyDelegated));
}

#[test]
fn per_owner_accounts_are_seeded_by_owner() {
    let owner = key(42);
    let mut a = Authority::BaseOwned;
    let req = delegate_liquidity_provider(&owner, &mut a, 7, key(1)).unwrap();
    assert_eq!(req.seeds, vec![b"liquidity_provider_account_info".to_vec(), owner.bytes.to_vec()]);
    let mut b = Authority::BaseOwned;
    let req = delegate_deposit_receipt(&owner, &mut b, 7, key(1)).unwrap();
    assert_eq!(req.seeds, vec![b"deposit_recept".to_vec(), owner.bytes.to_vec()]);
    let mut c = Authority::BaseOwned;
    let req = delegate_remove_liquidity_receipt(&owner, &mut c, 7, key(1)).unwrap();
    assert_eq!(req.seeds, vec![b"withdraw_recept".to_vec(), owner.bytes.to_vec()]);
    assert!(c.is_delegated());
}

#[test]
fn pool_seeds_use_name_bytes() {
    assert_eq!(pool_seeds("é"), vec![b"pool".to_vec(), vec![0xc3, 0xa9]]);
}
