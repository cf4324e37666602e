use liquidity_pool::delegation::{Authority, DelegateConfig};
use liquidity_pool::dispatch::{
    process_commit_and_burn_lp_tokens, process_commit_and_mint_lp_tokens, AccountRef,
    CommitAndBurnMintLpTokens, CommitAndMintLpTokens, FollowUpInstruction,
};
use liquidity_pool::error::ErrorCode;
use liquidity_pool::flow::DepositRecept;
use liquidity_pool::key::Key;

fn key(n: u8) -> Key {
    let mut b = [0u8; 32];
    b[0] = n;
    Key::new(b)
}

fn delegated() -> Authority {
    Authority::Delegated(DelegateConfig { commit_frequency_ms: 1, validator: None })
}

fn ro(n: u8) -> AccountRef {
    AccountRef { pubkey: key(n), is_writable: false }
}

fn rw(n: u8) -> AccountRef {
    AccountRef { pubkey: key(n), is_writable: true }
}

#[test]
fn mint_instruction_encoding() {
    let data = FollowUpInstruction::MintLpTokens { mint_amount: 0x0102_0304_0506_0708 }.data();
    assert_eq!(data, vec![223, 125, 147, 107, 146, 218, 4, 119, 8, 7, 6, 5, 4, 3, 2, 1]);
    assert_eq!(
        FollowUpInstruction::CloseDepositReceipt.data(),
        vec![94, 15, 206, 202, 191, 251, 122, 171]
    );
    assert_eq!(
        FollowUpInstruction::CloseWithdrawReceipt.data(),
        vec![175, 197, 57, 191, 28, 241, 18, 210]
    );
}

#[test]
fn deposit_commit_mints_then_closes() {
    let accounts = CommitAndMintLpTokens {
        provider: key(1),
        pool: key(2),
        liquidity_provider: key(3),
        deposit_recept: key(4),
        transfer_authority: key(5),
        lp_mint: key(6),
        provider_lp_ata: key(7),
        token_program: key(8),
        system_program: key(9),
    };
    let receipt = DepositRecept {
        pool: key(2),
        liquidity_provider: key(1),
        amount_a: 400,
        amount_b: 900,
        lp_tokens_minted: 600,
    };
    let (mut a, mut b, mut c) = (delegated(), delegated(), delegated());
    let req = process_commit_and_mint_lp_tokens(&accounts, &receipt, key(77), &mut a, &mut b, &mut c)
        .unwrap();
    assert_eq!(req.committed_accounts, vec![key(2), key(3)]);
    assert_eq!(req.released_accounts, vec![key(4)]);
    assert_eq!(req.follow_ups.len(), 2);
    let mint = &req.follow_ups[0];
    assert_eq!(mint.destination_program, key(77));
    assert_eq!(mint.compute_units, 200_000);
    assert_eq!(mint.escrow_index, 0);
    assert_eq!(mint.data, FollowUpInstruction::MintLpTokens { mint_amount: 600 }.data());
    assert_eq!(mint.accounts, vec![ro(1), ro(5), rw(6), rw(7), rw(4), ro(8)]);
    let close = &req.follow_ups[1];
    assert_eq!(close.data, FollowUpInstruction::CloseDepositReceipt.data());
    assert_eq!(close.accounts, vec![rw(1), rw(4), ro(9)]);
    assert_eq!((a, b, c), (delegated(), delegated(), Authority::BaseOwned));
}

#[test]
fn commit_needs_every_account_delegated() {
    let accounts = CommitAndBurnMintLpTokens {
        provider: key(1),
        pool: key(2),
        liquidity_provider: key(3),
        withdraw_recept: key(4),
        system_program: key(9),
    };
    let (mut a, mut b, mut c) = (delegated(), Authority::BaseOwned, delegated());
    assert_eq!(
        process_commit_and_burn_lp_tokens(&accounts, key(77), &mut a, &mut b, &mut c).err(),
        Some(ErrorCode::NotDelegated)
    );
    assert_eq!((a, b, c), (delegated(), Authority::BaseOwned, delegated()));
    let mint_accounts = CommitAndMintLpTokens {
        provider: key(1),
        pool: key(2),
        liquidity_provider: key(3),
        deposit_recept: key(4),
        transfer_authority: key(5),
        lp_mint: key(6),
        provider_lp_ata: key(7),
        token_program: key(8),
        system_program: key(9),
    };
    let receipt = DepositRecept {
        pool: key(2),
        liquidity_provider: key(1),
        amount_a: 1,
        amount_b: 1,
        lp_tokens_minted: 1,
    };
    let (mut a, mut b, mut c) = (delegated(), delegated(), Authority::BaseOwned);
    assert_eq!(
        process_commit_and_mint_lp_tokens(&mint_accounts, &receipt, key(77), &mut a, &mut b, &mut c)
            .err(),
        Some(ErrorCode::NotDelegated)
    );
    assert_eq!((a, b, c), (delegated(), delegated(), Authority::BaseOwned));
}

#[test]
fn withdrawal_commit_closes_receipt() {
    let accounts = CommitAndBurnMintLpTokens {
        provider: key(1),
        pool: key(2),
        liquidity_provider: key(3),
        withdraw_recept: key(4),
        system_program: key(9),
    };
    let (mut a, mut b, mut c) = (delegated(), delegated(), delegated());
    let req = process_commit_and_burn_lp_tokens(&accounts, key(77), &mut a, &mut b, &mut c).unwrap();
    assert_eq!(req.committed_accounts, vec![key(2), key(3)]);
    assert_eq!(req.released_accounts, vec![key(4)]);
    assert_eq!(req.follow_ups.len(), 1);
    assert_eq!(req.follow_ups[0].data, FollowUpInstruction::CloseWithdrawReceipt.data());
    assert_eq!(req.follow_ups[0].accounts, vec![rw(1), rw(4), ro(9)]);
    assert_eq!((a, b, c), (delegated(), delegated(), Authority::BaseOwned));
}

#[test]
fn keys_compare_bytewise() {
    assert!(Key::unset().is_unset());
    assert!(!key(1).is_unset());
    let mut b = [0u8; 32];
    b[31] = 1;
    assert!(!Key::new(b).same(&Key::unset()));
    assert!(key(3).same(&key(3)));
    assert!(key(3) != key(4));
}


fn anchor_tag(instruction: &str) -> Vec<u8> {
    anchor_syn::codegen::program::common::sighash("global", instruction).to_vec()
}

#[test]
fn tags_are_the_program_instruction_tags() {
    let mint = FollowUpInstruction::MintLpTokens { mint_amount: 5 }.data();
    assert_eq!(mint[..8].to_vec(), anchor_tag("process_mint_lp_tokens"));
    assert_eq!(mint[8..].to_vec(), 5u64.to_le_bytes().to_vec());
    assert_eq!(
        FollowUpInstruction::CloseDepositReceipt.data(),
        anchor_tag("process_close_deposit_receipt")
    );
    assert_eq!(
        FollowUpInstruction::CloseWithdrawReceipt.data(),
        anchor_tag("process_close_withdraw_receipt")
    );
}
