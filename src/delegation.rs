use vstd::prelude::*;

use crate::error::ErrorCode;
use crate::key::Key;
use crate::pool::Pool;

verus! {

/// `pool`: the seed of a pool's address, followed by the pool's name.
pub open spec fn pool_seed() -> Seq<u8> {
    seq![112u8, 111, 111, 108]
}

/// `liquidity_provider_account_info`: the seed of a provider's position
/// table, followed by the provider's address.
pub open spec fn liquidity_provider_seed() -> Seq<u8> {
    seq![
        108u8, 105, 113, 117, 105, 100, 105, 116, 121, 95, 112, 114, 111, 118, 105, 100, 101,
        114, 95, 97, 99, 99, 111, 117, 110, 116, 95, 105, 110, 102, 111,
    ]
}

/// `deposit_recept`: the seed of a provider's deposit receipt, followed by
/// the provider's address.
pub open spec fn deposit_receipt_seed() -> Seq<u8> {
    seq![100u8, 101, 112, 111, 115, 105, 116, 95, 114, 101, 99, 101, 112, 116]
}

/// `withdraw_recept`: the seed of a provider's withdrawal receipt, followed
/// by the provider's address.
pub open spec fn withdraw_receipt_seed() -> Seq<u8> {
    seq![119u8, 105, 116, 104, 100, 114, 97, 119, 95, 114, 101, 99, 101, 112, 116]
}

/// How a delegated account is run in the delegated context: how often its
/// state is committed back, and by which validator.
#[derive(Clone, Copy, Debug, PartialEq, Eq)]
pub struct DelegateConfig {
    pub commit_frequency_ms: u32,
    pub validator: Option<Key>,
}

/// Which context holds write authority over an account.
#[derive(Clone, Copy, Debug, PartialEq, Eq)]
pub enum Authority {
    BaseOwned,
    Delegated(DelegateConfig),
}

/// What the delegation program is asked to do for one account: the seeds
/// its address is derived from, and the configuration to run it under.
#[derive(Debug)]
pub struct DelegationRequest {
    pub seeds: Vec<Vec<u8>>,
    pub config: DelegateConfig,
}

impl Authority {
    /// Moves write authority from the base ledger to the delegated context.
    /// Refuses with `AlreadyDelegated`, changing nothing, if it is there.
    pub fn delegate(&mut self, config: DelegateConfig) -> (r: Result<(), ErrorCode>)
        ensures
            *old(self) is BaseOwned ==> r is Ok && *final(self) == Authority::Delegated(config),
            *old(self) is Delegated ==> r == Err::<(), ErrorCode>(ErrorCode::AlreadyDelegated)
                && *final(self) == *old(self),
    {
        match self {
            Authority::BaseOwned => {
                *self = Authority::Delegated(config);
                Ok(())
            },
            Authority::Delegated(_) => Err(ErrorCode::AlreadyDelegated),
        }
    }

    /// Flushes delegated state back to the base ledger, keeping authority in
    /// the delegated context. Refuses with `NotDelegated` if it is not there.
    pub fn commit(&self) -> (r: Result<(), ErrorCode>)
        ensures
            self is Delegated ==> r is Ok,
            self is BaseOwned ==> r == Err::<(), ErrorCode>(ErrorCode::NotDelegated),
    {
        match self {
            Authority::BaseOwned => Err(ErrorCode::NotDelegated),
            Authority::Delegated(_) => Ok(()),
        }
    }

    /// Flushes delegated state back to the base ledger and hands authority
    /// back to it. Refuses with `NotDelegated`, changing nothing, if
    /// authority is not in the delegated context.
    pub fn commit_and_undelegate(&mut self) -> (r: Result<(), ErrorCode>)
        ensures
            *old(self) is Delegated ==> r is Ok && *final(self) is BaseOwned,
            *old(self) is BaseOwned ==> r == Err::<(), ErrorCode>(ErrorCode::NotDelegated)
                && *final(self) == *old(self),
    {
        match self {
            Authority::BaseOwned => Err(ErrorCode::NotDelegated),
            Authority::Delegated(_) => {
                *self = Authority::BaseOwned;
                Ok(())
            },
        }
    }

    /// Whether authority is in the delegated context.
    pub fn is_delegated(&self) -> (r: bool)
        ensures
            r == self is Delegated,
    {
        match self {
            Authority::BaseOwned => false,
            Authority::Delegated(_) => true,
        }
    }
}

/// The seeds of an address: a fixed prefix, then one identifying part.
pub open spec fn seeds_of(prefix: Seq<u8>, id: Seq<u8>) -> Seq<Seq<u8>> {
    seq![prefix, id]
}

/// The views of a list of byte strings.
pub open spec fn views(v: Vec<Vec<u8>>) -> Seq<Seq<u8>> {
    v@.map_values(|b: Vec<u8>| b@)
}

/// Seeds of a fixed prefix followed by one identifying part.
fn two_seeds(prefix: Vec<u8>, id: &[u8]) -> (r: Vec<Vec<u8>>)
    ensures
        views(r) == seeds_of(prefix@, id@),
{
    let mut r: Vec<Vec<u8>> = Vec::new();
    r.push(prefix);
    r.push(vstd::slice::slice_to_vec(id));
    proof {
        assert(views(r) =~= seeds_of(prefix@, id@));
    }
    r
}

/// Seeds of the address of the pool called `name`.
pub fn pool_seeds(name: &str) -> (r: Vec<Vec<u8>>)
    ensures
        views(r) == seeds_of(pool_seed(), vstd::utf8::encode_utf8(name@)),
{
    let prefix: Vec<u8> = vec![112u8, 111, 111, 108];
    assert(prefix@ =~= pool_seed());
    two_seeds(prefix, name.as_bytes())
}

/// Seeds of the address of `owner`'s position table.
pub fn liquidity_provider_seeds(owner: &Key) -> (r: Vec<Vec<u8>>)
    ensures
        views(r) == seeds_of(liquidity_provider_seed(), owner.bytes@),
{
    let prefix: Vec<u8> = vec![
        108u8, 105, 113, 117, 105, 100, 105, 116, 121, 95, 112, 114, 111, 118, 105, 100, 101,
        114, 95, 97, 99, 99, 111, 117, 110, 116, 95, 105, 110, 102, 111,
    ];
    assert(prefix@ =~= liquidity_provider_seed());
    two_seeds(prefix, owner.bytes.as_slice())
}

/// Seeds of the address of `owner`'s deposit receipt.
pub fn deposit_receipt_seeds(owner: &Key) -> (r: Vec<Vec<u8>>)
    ensures
        views(r) == seeds_of(deposit_receipt_seed(), owner.bytes@),
{
    let prefix: Vec<u8> = vec![100u8, 101, 112, 111, 115, 105, 116, 95, 114, 101, 99, 101, 112, 116];
    assert(prefix@ =~= deposit_receipt_seed());
    two_seeds(prefix, owner.bytes.as_slice())
}

/// Seeds of the address of `owner`'s withdrawal receipt.
pub fn withdraw_receipt_seeds(owner: &Key) -> (r: Vec<Vec<u8>>)
    ensures
        views(r) == seeds_of(withdraw_receipt_seed(), owner.bytes@),
{
    let prefix: Vec<u8> = vec![119u8, 105, 116, 104, 100, 114, 97, 119, 95, 114, 101, 99, 101, 112, 116];
    assert(prefix@ =~= withdraw_receipt_seed());
    two_seeds(prefix, owner.bytes.as_slice())
}

/// The configuration a delegation asks for: commits every
/// `commit_frequency` milliseconds, by `validator_key`.
pub open spec fn config_of(commit_frequency: u32, validator_key: Key) -> DelegateConfig {
    DelegateConfig { commit_frequency_ms: commit_frequency, validator: Some(validator_key) }
}

/// Whether `r` asks the delegation program to delegate the account derived
/// from `seeds`, and `after` is the account's authority once it has.
pub open spec fn delegation_outcome(
    before: Authority,
    after: Authority,
    r: Result<DelegationRequest, ErrorCode>,
    seeds: Seq<Seq<u8>>,
    commit_frequency: u32,
    validator_key: Key,
) -> bool {
    &&& before is BaseOwned ==> (r matches Ok(req) && views(req.seeds) == seeds && req.config
        == config_of(commit_frequency, validator_key) && after == Authority::Delegated(
        req.config,
    ))
    &&& before is Delegated ==> (r matches Err(e) && e == ErrorCode::AlreadyDelegated && after
        == before)
}

/// Delegation of the account derived from `seeds`.
fn delegate_account(
    authority: &mut Authority,
    seeds: Vec<Vec<u8>>,
    commit_frequency: u32,
    validator_key: Key,
) -> (r: Result<DelegationRequest, ErrorCode>)
    ensures
        delegation_outcome(
            *old(authority),
            *final(authority),
            r,
            views(seeds),
            commit_frequency,
            validator_key,
        ),
{
    let config = DelegateConfig {
        commit_frequency_ms: commit_frequency,
        validator: Some(validator_key),
    };
    authority.delegate(config)?;
    Ok(DelegationRequest { seeds, config })
}

/// Hands the pool to the delegated context.
pub fn delegate_pool(
    pool: &Pool,
    authority: &mut Authority,
    commit_frequency: u32,
    validator_key: Key,
) -> (r: Result<DelegationRequest, ErrorCode>)
    ensures
        delegation_outcome(
            *old(authority),
            *final(authority),
            r,
            seeds_of(pool_seed(), vstd::utf8::encode_utf8(pool.name@)),
            commit_frequency,
            validator_key,
        ),
{
    let seeds = pool_seeds(pool.name.as_str());
    delegate_account(authority, seeds, commit_frequency, validator_key)
}

/// Hands `provider`'s position table to the delegated context.
pub fn delegate_liquidity_provider(
    provider: &Key,
    authority: &mut Authority,
    commit_frequency: u32,
    validator_key: Key,
) -> (r: Result<DelegationRequest, ErrorCode>)
    ensures
        delegation_outcome(
            *old(authority),
            *final(authority),
            r,
            seeds_of(liquidity_provider_seed(), provider.bytes@),
            commit_frequency,
            validator_key,
        ),
{
    let seeds = liquidity_provider_seeds(provider);
    delegate_account(authority, seeds, commit_frequency, validator_key)
}

/// Hands `provider`'s deposit receipt to the delegated context.
pub fn delegate_deposit_receipt(
    provider: &Key,
    authority: &mut Authority,
    commit_frequency: u32,
    validator_key: Key,
) -> (r: Result<DelegationRequest, ErrorCode>)
    ensures
        delegation_outcome(
            *old(authority),
            *final(authority),
            r,
            seeds_of(deposit_receipt_seed(), provider.bytes@),
            commit_frequency,
            validator_key,
        ),
{
    let seeds = deposit_receipt_seeds(provider);
    delegate_account(authority, seeds, commit_frequency, validator_key)
}

/// Hands `provider`'s withdrawal receipt to the delegated context.
pub fn delegate_remove_liquidity_receipt(
    provider: &Key,
    authority: &mut Authority,
    commit_frequency: u32,
    validator_key: Key,
) -> (r: Result<DelegationRequest, ErrorCode>)
    ensures
        delegation_outcome(
            *old(authority),
            *final(authority),
            r,
            seeds_of(withdraw_receipt_seed(), provider.bytes@),
            commit_frequency,
            validator_key,
        ),
{
    let seeds = withdraw_receipt_seeds(provider);
    delegate_account(authority, seeds, commit_frequency, validator_key)
}

} // verus!
