use vstd::prelude::*;

use vstd::bytes::{spec_u64_to_le_bytes, u64_to_le_bytes};

use crate::delegation::Authority;
use crate::error::ErrorCode;
use crate::flow::DepositRecept;
use crate::key::Key;

verus! {

/// Compute budget of each follow-up instruction.
pub const FOLLOW_UP_COMPUTE_UNITS: u32 = 200_000;

/// Tag of the instruction that mints a receipt's LP tokens.
pub open spec fn mint_lp_tokens_tag() -> Seq<u8> {
    seq![223u8, 125, 147, 107, 146, 218, 4, 119]
}

/// Tag of the instruction that closes a deposit receipt.
pub open spec fn close_deposit_receipt_tag() -> Seq<u8> {
    seq![94u8, 15, 206, 202, 191, 251, 122, 171]
}

/// Tag of the instruction that closes a withdrawal receipt.
pub open spec fn close_withdraw_receipt_tag() -> Seq<u8> {
    seq![175u8, 197, 57, 191, 28, 241, 18, 210]
}

/// An instruction the base ledger runs after a commit.
#[derive(Clone, Copy, Debug, PartialEq, Eq)]
pub enum FollowUpInstruction {
    MintLpTokens { mint_amount: u64 },
    CloseDepositReceipt,
    CloseWithdrawReceipt,
}

impl FollowUpInstruction {
    /// The instruction's encoding: an eight-byte tag, then its argument in
    /// little-endian order.
    pub open spec fn spec_data(self) -> Seq<u8> {
        match self {
            FollowUpInstruction::MintLpTokens { mint_amount } => mint_lp_tokens_tag()
                + spec_u64_to_le_bytes(mint_amount),
            FollowUpInstruction::CloseDepositReceipt => close_deposit_receipt_tag(),
            FollowUpInstruction::CloseWithdrawReceipt => close_withdraw_receipt_tag(),
        }
    }

    /// Encodes the instruction; see [`FollowUpInstruction::spec_data`].
    pub fn data(&self) -> (r: Vec<u8>)
        ensures
            r@ == self.spec_data(),
    {
        match self {
            FollowUpInstruction::MintLpTokens { mint_amount } => {
                let mut r: Vec<u8> = vec![223u8, 125, 147, 107, 146, 218, 4, 119];
                let mut amount = u64_to_le_bytes(*mint_amount);
                r.append(&mut amount);
                assert(r@ =~= self.spec_data());
                r
            },
            FollowUpInstruction::CloseDepositReceipt => {
                let r: Vec<u8> = vec![94u8, 15, 206, 202, 191, 251, 122, 171];
                assert(r@ =~= self.spec_data());
                r
            },
            FollowUpInstruction::CloseWithdrawReceipt => {
                let r: Vec<u8> = vec![175u8, 197, 57, 191, 28, 241, 18, 210];
                assert(r@ =~= self.spec_data());
                r
            },
        }
    }
}

/// An account a follow-up instruction touches.
#[derive(Clone, Copy, Debug, PartialEq, Eq)]
pub struct AccountRef {
    pub pubkey: Key,
    pub is_writable: bool,
}

/// An instruction queued with a commit, for the base ledger to run once the
/// commit has landed.
#[derive(Debug)]
pub struct FollowUp {
    pub destination_program: Key,
    pub escrow_index: u8,
    pub data: Vec<u8>,
    pub accounts: Vec<AccountRef>,
    pub compute_units: u32,
}

/// A flush of delegated accounts back to the base ledger, with the
/// instructions to run there afterwards, in order.
///
/// The committed accounts stay delegated; the released ones are committed
/// too and handed back to the base ledger. The follow-ups run once both
/// have landed.
#[derive(Debug)]
pub struct CommitRequest {
    pub committed_accounts: Vec<Key>,
    pub released_accounts: Vec<Key>,
    pub follow_ups: Vec<FollowUp>,
}

/// The accounts of the commit that ends a deposit.
#[derive(Clone, Copy, Debug)]
pub struct CommitAndMintLpTokens {
    pub provider: Key,
    pub pool: Key,
    pub liquidity_provider: Key,
    pub deposit_recept: Key,
    pub transfer_authority: Key,
    pub lp_mint: Key,
    pub provider_lp_ata: Key,
    pub token_program: Key,
    pub system_program: Key,
}

/// The accounts of the commit that ends a withdrawal.
#[derive(Clone, Copy, Debug)]
pub struct CommitAndBurnMintLpTokens {
    pub provider: Key,
    pub pool: Key,
    pub liquidity_provider: Key,
    pub withdraw_recept: Key,
    pub system_program: Key,
}

/// An account a follow-up only reads.
pub open spec fn read_only(k: Key) -> AccountRef {
    AccountRef { pubkey: k, is_writable: false }
}

/// An account a follow-up writes.
pub open spec fn writable(k: Key) -> AccountRef {
    AccountRef { pubkey: k, is_writable: true }
}

/// `f` runs `ix` in `program` over `accounts`, with the usual budget and
/// the first escrow.
pub open spec fn follow_up_is(
    f: FollowUp,
    program: Key,
    ix: FollowUpInstruction,
    accounts: Seq<AccountRef>,
) -> bool {
    &&& f.destination_program == program
    &&& f.escrow_index == 0
    &&& f.data@ == ix.spec_data()
    &&& f.accounts@ == accounts
    &&& f.compute_units == FOLLOW_UP_COMPUTE_UNITS
}

/// The follow-up that runs `ix` in `program` over `accounts`.
fn follow_up(program: Key, ix: FollowUpInstruction, accounts: Vec<AccountRef>) -> (r: FollowUp)
    ensures
        follow_up_is(r, program, ix, accounts@),
{
    FollowUp {
        destination_program: program,
        escrow_index: 0,
        data: ix.data(),
        accounts,
        compute_units: FOLLOW_UP_COMPUTE_UNITS,
    }
}

/// Whether the delegated context holds all three accounts.
pub open spec fn all_delegated(a: Authority, b: Authority, c: Authority) -> bool {
    a is Delegated && b is Delegated && c is Delegated
}

/// Ends a deposit: commits the pool and the position table, which stay
/// delegated, commits the deposit receipt and hands it back to the base
/// ledger, and queues the mint of the receipt's LP tokens, then the closing
/// of the receipt, in that order. The mint is handed the receipt too, so
/// that a replayed mint finds nothing left to mint. Refuses with
/// `NotDelegated`, changing nothing, unless the delegated context holds all
/// three accounts.
pub fn process_commit_and_mint_lp_tokens(
    accounts: &CommitAndMintLpTokens,
    receipt: &DepositRecept,
    program_id: Key,
    pool_authority: &mut Authority,
    provider_authority: &mut Authority,
    receipt_authority: &mut Authority,
) -> (r: Result<CommitRequest, ErrorCode>)
    ensures
        all_delegated(*old(pool_authority), *old(provider_authority), *old(receipt_authority))
            <==> r is Ok,
        *final(pool_authority) == *old(pool_authority),
        *final(provider_authority) == *old(provider_authority),
        r is Err ==> r == Err::<CommitRequest, ErrorCode>(ErrorCode::NotDelegated)
            && *final(receipt_authority) == *old(receipt_authority),
        r matches Ok(req) ==> {
            &&& *final(receipt_authority) is BaseOwned
            &&& req.committed_accounts@ == seq![accounts.pool, accounts.liquidity_provider]
            &&& req.released_accounts@ == seq![accounts.deposit_recept]
            &&& req.follow_ups@.len() == 2
            &&& follow_up_is(
                req.follow_ups@[0],
                program_id,
                FollowUpInstruction::MintLpTokens { mint_amount: receipt.lp_tokens_minted },
                seq![
                    read_only(accounts.provider),
                    read_only(accounts.transfer_authority),
                    writable(accounts.lp_mint),
                    writable(accounts.provider_lp_ata),
                    writable(accounts.deposit_recept),
                    read_only(accounts.token_program),
                ],
            )
            &&& follow_up_is(
                req.follow_ups@[1],
                program_id,
                FollowUpInstruction::CloseDepositReceipt,
                seq![
                    writable(accounts.provider),
                    writable(accounts.deposit_recept),
                    read_only(accounts.system_program),
                ],
            )
        },
{
    pool_authority.commit()?;
    provider_authority.commit()?;
    receipt_authority.commit_and_undelegate()?;
    let mint_accounts = vec![
        AccountRef { pubkey: accounts.provider, is_writable: false },
        AccountRef { pubkey: accounts.transfer_authority, is_writable: false },
        AccountRef { pubkey: accounts.lp_mint, is_writable: true },
        AccountRef { pubkey: accounts.provider_lp_ata, is_writable: true },
        AccountRef { pubkey: accounts.deposit_recept, is_writable: true },
        AccountRef { pubkey: accounts.token_program, is_writable: false },
    ];
    let mint = follow_up(
        program_id,
        FollowUpInstruction::MintLpTokens { mint_amount: receipt.lp_tokens_minted },
        mint_accounts,
    );
    let close_accounts = vec![
        AccountRef { pubkey: accounts.provider, is_writable: true },
        AccountRef { pubkey: accounts.deposit_recept, is_writable: true },
        AccountRef { pubkey: accounts.system_program, is_writable: false },
    ];
    let close = follow_up(program_id, FollowUpInstruction::CloseDepositReceipt, close_accounts);
    let committed = vec![accounts.pool, accounts.liquidity_provider];
    let released = vec![accounts.deposit_recept];
    let follow_ups = vec![mint, close];
    Ok(CommitRequest { committed_accounts: committed, released_accounts: released, follow_ups })
}

/// Ends a withdrawal, whose LP tokens were burned on the base ledger
/// already: commits the pool and the position table, which stay delegated,
/// commits the withdrawal receipt and hands it back to the base ledger, and
/// queues the closing of the receipt there. Refuses with `NotDelegated`,
/// changing nothing, unless the delegated context holds all three accounts.
pub fn process_commit_and_burn_lp_tokens(
    accounts: &CommitAndBurnMintLpTokens,
    program_id: Key,
    pool_authority: &mut Authority,
    provider_authority: &mut Authority,
    receipt_authority: &mut Authority,
) -> (r: Result<CommitRequest, ErrorCode>)
    ensures
        all_delegated(*old(pool_authority), *old(provider_authority), *old(receipt_authority))
            <==> r is Ok,
        *final(pool_authority) == *old(pool_authority),
        *final(provider_authority) == *old(provider_authority),
        r is Err ==> r == Err::<CommitRequest, ErrorCode>(ErrorCode::NotDelegated)
            && *final(receipt_authority) == *old(receipt_authority),
        r matches Ok(req) ==> {
            &&& *final(receipt_authority) is BaseOwned
            &&& req.committed_accounts@ == seq![accounts.pool, accounts.liquidity_provider]
            &&& req.released_accounts@ == seq![accounts.withdraw_recept]
            &&& req.follow_ups@.len() == 1
            &&& follow_up_is(
                req.follow_ups@[0],
                program_id,
                FollowUpInstruction::CloseWithdrawReceipt,
                seq![
                    writable(accounts.provider),
                    writable(accounts.withdraw_recept),
                    read_only(accounts.system_program),
                ],
            )
        },
{
    pool_authority.commit()?;
    provider_authority.commit()?;
    receipt_authority.commit_and_undelegate()?;
    let close_accounts = vec![
        AccountRef { pubkey: accounts.provider, is_writable: true },
        AccountRef { pubkey: accounts.withdraw_recept, is_writable: true },
        AccountRef { pubkey: accounts.system_program, is_writable: false },
    ];
    let close = follow_up(program_id, FollowUpInstruction::CloseWithdrawReceipt, close_accounts);
    let committed = vec![accounts.pool, accounts.liquidity_provider];
    let released = vec![accounts.withdraw_recept];
    let follow_ups = vec![close];
    Ok(CommitRequest { committed_accounts: committed, released_accounts: released, follow_ups })
}

} // verus!
