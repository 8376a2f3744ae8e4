use simple_token_vault::{
    change_fee, deposit, deposit_transfer, fee_of, initialize, user_deposit_address,
    vault_address, vault_signer_seeds, withdraw, withdraw_transfers, Authority, ChangeFee,
    Deposit, ErrorCode, Initialize, Pubkey, TransferError, UserDeposit, Vault, Withdraw,
    MAX_FEE_BPS,
};

fn key(n: u8) -> Pubkey {
    let mut bytes = [0u8; 32];
    bytes[0] = n;
    bytes[31] = n.wrapping_mul(7);
    Pubkey::new(bytes)
}

fn vault_with_fee(fee: u64) -> Vault {
    let ctx = Initialize { vault: key(1), vault_bump: 254, owner: key(2), token_mint: key(3) };
    initialize(&ctx, fee).unwrap()
}

fn blank_record() -> UserDeposit {
    UserDeposit { user: Pubkey::zero(), vault: Pubkey::zero(), amount: 0 }
}

fn deposit_ctx(vault: Vault) -> Deposit {
    Deposit {
        vault,
        vault_key: key(1),
        user_deposit: blank_record(),
        user: key(4),
        user_token_account: key(5),
        vault_token_account: key(6),
    }
}

fn withdraw_ctx(d: &Deposit) -> Withdraw {
    Withdraw {
        vault: d.vault,
        user_deposit: d.user_deposit,
        user: d.user,
        user_token_account: d.user_token_account,
        vault_token_account: d.vault_token_account,
        fee_account: key(7),
    }
}

#[test]
fn initialize_accepts_fees_up_to_the_maximum() {
    let ctx = Initialize { vault: key(1), vault_bump: 253, owner: key(2), token_mint: key(3) };
    for fee in [0u64, 1, 250, 9999, 10000] {
        let v = initialize(&ctx, fee).unwrap();
        assert_eq!(v.fee, fee);
        assert_eq!(v.owner, key(2));
        assert_eq!(v.token_mint, key(3));
        assert_eq!(v.bump, 253);
    }
}

#[test]
fn initialize_rejects_fees_above_the_maximum() {
    let ctx = Initialize { vault: key(1), vault_bump: 253, owner: key(2), token_mint: key(3) };
    for fee in [10001u64, 20000, u64::MAX] {
        assert_eq!(initialize(&ctx, fee).unwrap_err(), ErrorCode::InvalidFee);
    }
    assert_eq!(MAX_FEE_BPS, 10000);
}

#[test]
fn deposits_accumulate_to_their_sum() {
    let mut ctx = deposit_ctx(vault_with_fee(0));
    for amount in [10u64, 0, 250, 7] {
        deposit(&mut ctx, amount, Ok(())).unwrap();
    }
    assert_eq!(ctx.user_deposit.amount, 267);
    assert_eq!(ctx.user_deposit.user, key(4));
    assert_eq!(ctx.user_deposit.vault, key(1));
}

#[test]
fn first_deposit_fills_in_a_blank_record() {
    let mut fresh = deposit_ctx(vault_with_fee(0));
    let mut created = deposit_ctx(vault_with_fee(0));
    created.user_deposit = UserDeposit { user: key(4), vault: key(1), amount: 0 };
    deposit(&mut fresh, 42, Ok(())).unwrap();
    deposit(&mut created, 42, Ok(())).unwrap();
    assert_eq!(fresh.user_deposit.user, created.user_deposit.user);
    assert_eq!(fresh.user_deposit.vault, created.user_deposit.vault);
    assert_eq!(fresh.user_deposit.amount, 42);
    assert_eq!(created.user_deposit.amount, 42);
}

#[test]
fn deposit_overflow_is_rejected_and_changes_nothing() {
    let mut ctx = deposit_ctx(vault_with_fee(0));
    ctx.user_deposit = UserDeposit { user: key(4), vault: key(1), amount: u64::MAX - 1 };
    assert_eq!(deposit(&mut ctx, 2, Ok(())), Err(ErrorCode::OverflowError));
    assert_eq!(ctx.user_deposit.amount, u64::MAX - 1);
    assert_eq!(deposit(&mut ctx, 1, Ok(())), Ok(()));
    assert_eq!(ctx.user_deposit.amount, u64::MAX);
}

#[test]
fn failed_deposit_transfer_changes_nothing() {
    let mut ctx = deposit_ctx(vault_with_fee(0));
    let e = TransferError { code: 17 };
    assert_eq!(deposit(&mut ctx, 5, Err(e)), Err(ErrorCode::TransferFailed(e)));
    assert!(ctx.user_deposit.user.is_zero());
    assert_eq!(ctx.user_deposit.amount, 0);
}

#[test]
fn deposit_transfer_goes_from_user_to_vault() {
    let ctx = deposit_ctx(vault_with_fee(0));
    let t = deposit_transfer(&ctx, 99);
    assert_eq!(t.from, key(5));
    assert_eq!(t.to, key(6));
    assert_eq!(t.authority, Authority::User(key(4)));
    assert_eq!(t.amount, 99);
}

#[test]
fn withdraw_beyond_balance_fails_and_keeps_balance() {
    let mut d = deposit_ctx(vault_with_fee(100));
    deposit(&mut d, 50, Ok(())).unwrap();
    let mut w = withdraw_ctx(&d);
    assert_eq!(withdraw_transfers(&w, 51).unwrap_err(), ErrorCode::InsufficientFunds);
    assert_eq!(withdraw(&mut w, 51, Ok(())), Err(ErrorCode::InsufficientFunds));
    assert_eq!(w.user_deposit.amount, 50);
}

#[test]
fn fee_is_the_rounded_down_share() {
    assert_eq!(fee_of(400, 250), 10);
    assert_eq!(fee_of(399, 250), 9);
    assert_eq!(fee_of(9999, 1), 0);
    assert_eq!(fee_of(10000, 1), 1);
    assert_eq!(fee_of(123, 10000), 123);
    assert_eq!(fee_of(u64::MAX, 10000), u64::MAX);
    assert_eq!(fee_of(u64::MAX, 5000), u64::MAX / 2);
    assert_eq!(fee_of(u64::MAX, 0), 0);
}

#[test]
fn withdraw_splits_amount_into_net_and_fee() {
    let mut d = deposit_ctx(vault_with_fee(333));
    deposit(&mut d, 5000, Ok(())).unwrap();
    let mut w = withdraw_ctx(&d);
    let plan = withdraw_transfers(&w, 3001).unwrap();
    let fee = 3001 * 333 / 10000;
    assert_eq!(fee, 99);
    assert_eq!(plan.payout.amount, 3001 - fee);
    assert_eq!(plan.payout.from, key(6));
    assert_eq!(plan.payout.to, key(5));
    assert_eq!(plan.payout.authority, Authority::Vault { bump: 254 });
    let f = plan.fee.unwrap();
    assert_eq!(f.amount, fee);
    assert_eq!(f.from, key(6));
    assert_eq!(f.to, key(7));
    assert_eq!(f.authority, Authority::Vault { bump: 254 });
    withdraw(&mut w, 3001, Ok(())).unwrap();
    assert_eq!(w.user_deposit.amount, 5000 - 3001);
}

#[test]
fn zero_fee_pays_the_whole_amount() {
    let mut d = deposit_ctx(vault_with_fee(0));
    deposit(&mut d, 1_000_000, Ok(())).unwrap();
    let w = withdraw_ctx(&d);
    let plan = withdraw_transfers(&w, 777_777).unwrap();
    assert_eq!(plan.payout.amount, 777_777);
    assert!(plan.fee.is_none());
}

#[test]
fn small_withdrawal_rounds_fee_to_nothing() {
    let mut d = deposit_ctx(vault_with_fee(250));
    deposit(&mut d, 100, Ok(())).unwrap();
    let plan = withdraw_transfers(&withdraw_ctx(&d), 39).unwrap();
    assert_eq!(plan.payout.amount, 39);
    assert!(plan.fee.is_none());
}

#[test]
fn failed_withdraw_transfer_changes_nothing() {
    let mut d = deposit_ctx(vault_with_fee(250));
    deposit(&mut d, 100, Ok(())).unwrap();
    let mut w = withdraw_ctx(&d);
    let e = TransferError { code: 1 };
    assert_eq!(withdraw(&mut w, 60, Err(e)), Err(ErrorCode::TransferFailed(e)));
    assert_eq!(w.user_deposit.amount, 100);
}

#[test]
fn change_fee_by_non_owner_is_refused() {
    let vault = vault_with_fee(250);
    for new_fee in [0u64, 500, 10000, 10001] {
        let mut ctx = ChangeFee { vault, owner: key(9) };
        assert_eq!(change_fee(&mut ctx, new_fee), Err(ErrorCode::NotOwner));
        assert_eq!(ctx.vault.fee, 250);
    }
}

#[test]
fn change_fee_by_owner() {
    let vault = vault_with_fee(250);
    let mut ctx = ChangeFee { vault, owner: key(2) };
    assert_eq!(change_fee(&mut ctx, 10001), Err(ErrorCode::InvalidFee));
    assert_eq!(ctx.vault.fee, 250);
    assert_eq!(change_fee(&mut ctx, 10000), Ok(()));
    assert_eq!(ctx.vault.fee, 10000);
    assert_eq!(ctx.vault.owner, key(2));
    assert_eq!(ctx.vault.token_mint, key(3));
    assert_eq!(ctx.vault.bump, 254);
}

#[test]
fn scenario_fee_of_two_and_a_half_percent() {
    let mut d = deposit_ctx(vault_with_fee(250));
    deposit(&mut d, 1000, Ok(())).unwrap();
    assert_eq!(d.user_deposit.amount, 1000);
    let mut w = withdraw_ctx(&d);
    let plan = withdraw_transfers(&w, 400).unwrap();
    assert_eq!(plan.fee.unwrap().amount, 10);
    assert_eq!(plan.payout.amount, 390);
    withdraw(&mut w, 400, Ok(())).unwrap();
    assert_eq!(w.user_deposit.amount, 600);
}

#[test]
fn scenario_zero_fee_full_withdrawal() {
    let mut d = deposit_ctx(vault_with_fee(0));
    deposit(&mut d, 500, Ok(())).unwrap();
    let mut w = withdraw_ctx(&d);
    let plan = withdraw_transfers(&w, 500).unwrap();
    assert_eq!(plan.payout.amount, 500);
    assert!(plan.fee.is_none());
    withdraw(&mut w, 500, Ok(())).unwrap();
    assert_eq!(w.user_deposit.amount, 0);
    assert_eq!(withdraw_transfers(&w, 1).unwrap_err(), ErrorCode::InsufficientFunds);
    assert_eq!(withdraw(&mut w, 1, Ok(())), Err(ErrorCode::InsufficientFunds));
    assert_eq!(w.user_deposit.amount, 0);
}

#[test]
fn error_messages() {
    assert_eq!(ErrorCode::InsufficientFunds.message(), "Insufficient funds for withdrawal");
    assert_eq!(ErrorCode::OverflowError.message(), "Arithmetic overflow");
    assert_eq!(ErrorCode::InvalidFee.message(), "Invalid fee percentage");
    assert_eq!(ErrorCode::NotOwner.message(), "Signer is not the vault owner");
    assert_eq!(ErrorCode::TransferFailed(TransferError { code: 3 }).message(), "Token transfer failed");
}

#[test]
fn key_comparison() {
    assert!(Pubkey::zero().is_zero());
    assert!(!key(1).is_zero());
    assert!(key(1).same_as(&key(1)));
    assert!(!key(1).same_as(&key(2)));
    let mut b = [0u8; 32];
    b[31] = 1;
    assert!(!Pubkey::new(b).is_zero());
    assert!(Pubkey::new(b) != Pubkey::zero());
}

#[test]
fn vault_address_matches_the_runtime_derivation() {
    let program = anchor_lang::prelude::Pubkey::new_from_array([11u8; 32]);
    let (expected, bump) = anchor_lang::prelude::Pubkey::find_program_address(&[b"vault"], &program);
    let (k, b) = vault_address(&Pubkey::new(program.to_bytes())).unwrap();
    assert_eq!(k.bytes, expected.to_bytes());
    assert_eq!(b, bump);
    assert!(k != Pubkey::new(program.to_bytes()));
    let ctx = Initialize::new(&Pubkey::new(program.to_bytes()), key(2), key(3)).unwrap();
    assert_eq!(ctx.vault, k);
    assert_eq!(ctx.vault_bump, b);
    assert_eq!(initialize(&ctx, 5).unwrap().bump, b);
}

#[test]
fn user_deposit_address_is_one_per_pair() {
    let program = anchor_lang::prelude::Pubkey::new_from_array([12u8; 32]);
    let pid = Pubkey::new(program.to_bytes());
    let (v, u) = (key(1), key(4));
    let (expected, bump) = anchor_lang::prelude::Pubkey::find_program_address(
        &[b"user_deposit", &v.bytes, &u.bytes],
        &program,
    );
    let (k, b) = user_deposit_address(&pid, &v, &u).unwrap();
    assert_eq!(k.bytes, expected.to_bytes());
    assert_eq!(b, bump);
    let (again, _) = user_deposit_address(&pid, &v, &u).unwrap();
    assert_eq!(again, k);
    let (other, _) = user_deposit_address(&pid, &v, &key(8)).unwrap();
    assert!(other != k);
}

#[test]
fn vault_signs_with_its_seed_and_bump() {
    let seeds = vault_signer_seeds(254);
    assert_eq!(seeds, vec![b"vault".to_vec(), vec![254u8]]);
}
