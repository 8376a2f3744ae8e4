use vstd::prelude::*;
use crate::key::Pubkey;
use crate::state::{Authority, ErrorCode, TransferError, TransferRequest, UserDeposit, Vault, MAX_FEE_BPS};

verus! {

/// The fee, in tokens, on withdrawing `amount` at `fee_bps` basis points:
/// the product divided by 10000, rounded down.
pub open spec fn fee_for(amount: u64, fee_bps: u64) -> int {
    (amount as int * fee_bps as int) / (MAX_FEE_BPS as int)
}

/// What reaches the user when `amount` is withdrawn at `fee_bps`.
pub open spec fn net_for(amount: u64, fee_bps: u64) -> int {
    amount - fee_for(amount, fee_bps)
}

/// The fee never exceeds the amount it is charged on.
pub proof fn lemma_fee_bounded(amount: u64, fee_bps: u64)
    requires
        fee_bps <= MAX_FEE_BPS,
    ensures
        0 <= fee_for(amount, fee_bps) <= amount,
{
    assert(0 <= amount as int * fee_bps as int <= amount as int * 10000) by (nonlinear_arith)
        requires
            fee_bps <= 10000,
    ;
}

/// Fee on withdrawing `amount` at `fee_bps`, computed without overflow for
/// every amount.
pub fn fee_of(amount: u64, fee_bps: u64) -> (r: u64)
    requires
        fee_bps <= MAX_FEE_BPS,
    ensures
        r == fee_for(amount, fee_bps),
        r <= amount,
{
    proof {
        lemma_fee_bounded(amount, fee_bps);
    }
    let product: u128 = (amount as u128) * (fee_bps as u128);
    (product / (MAX_FEE_BPS as u128)) as u64
}

/// The records and accounts a withdrawal works on.
#[derive(Clone, Copy, Debug)]
pub struct Withdraw {
    pub vault: Vault,
    pub user_deposit: UserDeposit,
    /// The withdrawing user, who has signed.
    pub user: Pubkey,
    pub user_token_account: Pubkey,
    pub vault_token_account: Pubkey,
    /// Token account that collects the fee.
    pub fee_account: Pubkey,
}

/// The transfers of a withdrawal: the net amount to the user, then the fee to
/// the collector when there is one.
#[derive(Clone, Copy, Debug)]
pub struct WithdrawPlan {
    pub payout: TransferRequest,
    pub fee: Option<TransferRequest>,
}

/// The payout transfer of withdrawing `amount` from the vault of `ctx`.
pub open spec fn payout_request(ctx: Withdraw, amount: u64) -> TransferRequest {
    TransferRequest {
        from: ctx.vault_token_account,
        to: ctx.user_token_account,
        authority: Authority::Vault { bump: ctx.vault.bump },
        amount: net_for(amount, ctx.vault.fee) as u64,
    }
}

/// The fee transfer of withdrawing `amount`, absent when the fee is zero.
pub open spec fn fee_request(ctx: Withdraw, amount: u64) -> Option<TransferRequest> {
    if fee_for(amount, ctx.vault.fee) > 0 {
        Some(
            TransferRequest {
                from: ctx.vault_token_account,
                to: ctx.fee_account,
                authority: Authority::Vault { bump: ctx.vault.bump },
                amount: fee_for(amount, ctx.vault.fee) as u64,
            },
        )
    } else {
        None
    }
}

/// The accounts after a successful withdrawal of `amount`: the user's balance
/// is lower by the whole amount, fee included.
pub open spec fn withdrawn(ctx: Withdraw, amount: u64) -> Withdraw {
    Withdraw {
        user_deposit: UserDeposit {
            amount: (ctx.user_deposit.amount - amount) as u64,
            ..ctx.user_deposit
        },
        ..ctx
    }
}

/// The transfers that withdrawing `amount` needs, or `InsufficientFunds` when
/// the user's balance is below `amount`. Both transfers are signed by the
/// vault itself.
pub fn withdraw_transfers(ctx: &Withdraw, amount: u64) -> (r: Result<WithdrawPlan, ErrorCode>)
    requires
        ctx.vault.wf(),
    ensures
        amount > ctx.user_deposit.amount ==> r == Err::<WithdrawPlan, ErrorCode>(
            ErrorCode::InsufficientFunds,
        ),
        amount <= ctx.user_deposit.amount ==> r == Ok::<WithdrawPlan, ErrorCode>(
            WithdrawPlan { payout: payout_request(*ctx, amount), fee: fee_request(*ctx, amount) },
        ),
{
    if amount > ctx.user_deposit.amount {
        return Err(ErrorCode::InsufficientFunds);
    }
    let fee = fee_of(amount, ctx.vault.fee);
    let authority = Authority::Vault { bump: ctx.vault.bump };
    let payout = TransferRequest {
        from: ctx.vault_token_account,
        to: ctx.user_token_account,
        authority,
        amount: amount - fee,
    };
    let fee_transfer = if fee > 0 {
        Some(
            TransferRequest {
                from: ctx.vault_token_account,
                to: ctx.fee_account,
                authority,
                amount: fee,
            },
        )
    } else {
        None
    };
    Ok(WithdrawPlan { payout, fee: fee_transfer })
}

/// Finishes a withdrawal of `amount` once the transfers of
/// `withdraw_transfers` have been attempted, with `transfers` their outcome.
/// On success the user's balance drops by the whole `amount`, fee included;
/// on any failure nothing changes.
pub fn withdraw(ctx: &mut Withdraw, amount: u64, transfers: Result<(), TransferError>) -> (r: Result<
    (),
    ErrorCode,
>)
    requires
        old(ctx).vault.wf(),
    ensures
        amount > old(ctx).user_deposit.amount ==> r == Err::<(), ErrorCode>(
            ErrorCode::InsufficientFunds,
        ) && *final(ctx) == *old(ctx),
        amount <= old(ctx).user_deposit.amount ==> match transfers {
            Err(e) => r == Err::<(), ErrorCode>(ErrorCode::TransferFailed(e)) && *final(ctx) == *old(
                ctx,
            ),
            Ok(_) => r == Ok::<(), ErrorCode>(()) && *final(ctx) == withdrawn(*old(ctx), amount),
        },
{
    if amount > ctx.user_deposit.amount {
        return Err(ErrorCode::InsufficientFunds);
    }
    if let Err(e) = transfers {
        return Err(ErrorCode::TransferFailed(e));
    }
    match ctx.user_deposit.amount.checked_sub(amount) {
        Some(left) => {
            ctx.user_deposit.amount = left;
            Ok(())
        },
        None => Err(ErrorCode::OverflowError),
    }
}

} // verus!
