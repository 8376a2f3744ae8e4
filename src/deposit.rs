use vstd::prelude::*;
use crate::key::Pubkey;
use crate::state::{Authority, ErrorCode, TransferError, TransferRequest, UserDeposit, Vault};

verus! {

/// The record that a deposit of `user` into the vault at `vault_key` adds to:
/// a blank record is first filled in for that pair with a zero balance.
pub open spec fn opened(record: UserDeposit, user: Pubkey, vault_key: Pubkey) -> UserDeposit {
    if record.is_blank() {
        UserDeposit { user, vault: vault_key, amount: 0 }
    } else {
        record
    }
}

/// The record after crediting `amount` to it, or `None` when the balance
/// would leave the range of `u64`.
pub open spec fn credited(record: UserDeposit, user: Pubkey, vault_key: Pubkey, amount: u64) -> Option<
    UserDeposit,
> {
    let base = opened(record, user, vault_key);
    if base.amount + amount <= u64::MAX {
        Some(UserDeposit { amount: (base.amount + amount) as u64, ..base })
    } else {
        None
    }
}

/// The records and accounts a deposit works on.
#[derive(Clone, Copy, Debug)]
pub struct Deposit {
    pub vault: Vault,
    /// Address of the vault record.
    pub vault_key: Pubkey,
    /// The record at the address derived from the vault and the user; blank
    /// before the user's first deposit.
    pub user_deposit: UserDeposit,
    /// The depositing user, who has signed.
    pub user: Pubkey,
    pub user_token_account: Pubkey,
    pub vault_token_account: Pubkey,
}

/// The transfer of a deposit: `amount` from the user's token account to the
/// vault's, signed by the user.
pub fn deposit_transfer(ctx: &Deposit, amount: u64) -> (r: TransferRequest)
    ensures
        r == (TransferRequest {
            from: ctx.user_token_account,
            to: ctx.vault_token_account,
            authority: Authority::User(ctx.user),
            amount,
        }),
{
    TransferRequest {
        from: ctx.user_token_account,
        to: ctx.vault_token_account,
        authority: Authority::User(ctx.user),
        amount,
    }
}

/// Finishes a deposit of `amount` once the transfer of `deposit_transfer` has
/// been attempted, with `transfer` its outcome. On success the user's record
/// is filled in if it was blank and its balance grows by `amount`; on any
/// failure nothing changes. A deposit of zero is accepted and only fills in
/// the record.
pub fn deposit(ctx: &mut Deposit, amount: u64, transfer: Result<(), TransferError>) -> (r: Result<
    (),
    ErrorCode,
>)
    ensures
        match transfer {
            Err(e) => r == Err::<(), ErrorCode>(ErrorCode::TransferFailed(e)) && *final(ctx) == *old(
                ctx,
            ),
            Ok(_) => match credited(old(ctx).user_deposit, old(ctx).user, old(ctx).vault_key, amount) {
                Some(d) => r == Ok::<(), ErrorCode>(()) && *final(ctx) == (Deposit {
                    user_deposit: d,
                    ..*old(ctx)
                }),
                None => r == Err::<(), ErrorCode>(ErrorCode::OverflowError) && *final(ctx) == *old(
                    ctx,
                ),
            },
        },
{
    if let Err(e) = transfer {
        return Err(ErrorCode::TransferFailed(e));
    }
    let mut record = ctx.user_deposit;
    if record.user.is_zero() {
        record = UserDeposit { user: ctx.user, vault: ctx.vault_key, amount: 0 };
    }
    match record.amount.checked_add(amount) {
        Some(total) => {
            record.amount = total;
            ctx.user_deposit = record;
            Ok(())
        },
        None => Err(ErrorCode::OverflowError),
    }
}

} // verus!
