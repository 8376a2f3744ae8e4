use vstd::prelude::*;
use crate::deposit::{credited, opened};
use crate::key::Pubkey;
use crate::state::UserDeposit;
use crate::withdraw::{
    fee_for, fee_request, lemma_fee_bounded, payout_request, withdrawn, Withdraw,
};

verus! {

/// The sum of a sequence of amounts.
pub open spec fn total(amounts: Seq<u64>) -> int
    decreases amounts.len(),
{
    if amounts.len() == 0 {
        0
    } else {
        total(amounts.drop_last()) + amounts.last()
    }
}

/// The record after depositing each of `amounts` in turn, all by `user` into
/// the vault at `vault_key`; `None` once a deposit overflows.
pub open spec fn deposit_all(
    record: UserDeposit,
    user: Pubkey,
    vault_key: Pubkey,
    amounts: Seq<u64>,
) -> Option<UserDeposit>
    decreases amounts.len(),
{
    if amounts.len() == 0 {
        Some(record)
    } else {
        match deposit_all(record, user, vault_key, amounts.drop_last()) {
            Some(d) => credited(d, user, vault_key, amounts.last()),
            None => None,
        }
    }
}

/// Deposits accumulate: starting from a blank record, one or more deposits by
/// the same user into the same vault leave a record of that pair whose
/// balance is the sum of the deposits, when that sum fits in `u64`.
pub proof fn law_deposits_accumulate(
    record: UserDeposit,
    user: Pubkey,
    vault_key: Pubkey,
    amounts: Seq<u64>,
)
    requires
        record.is_blank(),
        !user.is_default(),
        amounts.len() > 0,
        total(amounts) <= u64::MAX,
    ensures
        deposit_all(record, user, vault_key, amounts) == Some(
            UserDeposit { user, vault: vault_key, amount: total(amounts) as u64 },
        ),
    decreases amounts.len(),
{
    if amounts.len() > 1 {
        let prefix = amounts.drop_last();
        lemma_total_nonnegative(prefix);
        law_deposits_accumulate(record, user, vault_key, prefix);
        let d = UserDeposit { user, vault: vault_key, amount: total(prefix) as u64 };
        assert(!d.is_blank());
        assert(opened(d, user, vault_key) == d);
        assert(deposit_all(record, user, vault_key, prefix) == Some(d));
    } else {
        assert(amounts.drop_last().len() == 0);
        assert(total(amounts.drop_last()) == 0);
        assert(deposit_all(record, user, vault_key, amounts.drop_last()) == Some(record));
        assert(opened(record, user, vault_key) == UserDeposit { user, vault: vault_key, amount: 0 });
    }
}

proof fn lemma_total_nonnegative(amounts: Seq<u64>)
    ensures
        total(amounts) >= 0,
    decreases amounts.len(),
{
    if amounts.len() > 0 {
        lemma_total_nonnegative(amounts.drop_last());
    }
}

/// A first deposit needs no record beforehand: crediting a blank record gives
/// the same result as crediting a record of the same user and vault created
/// with a zero balance.
pub proof fn law_first_deposit_creates_record(
    record: UserDeposit,
    user: Pubkey,
    vault_key: Pubkey,
    amount: u64,
)
    requires
        record.is_blank(),
    ensures
        credited(record, user, vault_key, amount) == credited(
            UserDeposit { user, vault: vault_key, amount: 0 },
            user,
            vault_key,
            amount,
        ),
{
}

/// A withdrawal of `amount` that the balance covers pays the user the amount
/// less the fee, pays the fee (the amount times the rate over 10000, rounded
/// down) to the collector when it is not zero, and lowers the balance by
/// exactly `amount`; the two transfers together move exactly `amount`.
pub proof fn law_withdraw_split(ctx: Withdraw, amount: u64)
    requires
        ctx.vault.wf(),
        amount <= ctx.user_deposit.amount,
    ensures
        payout_request(ctx, amount).to == ctx.user_token_account,
        payout_request(ctx, amount).amount == amount - fee_for(amount, ctx.vault.fee),
        fee_for(amount, ctx.vault.fee) > 0 ==> (fee_request(ctx, amount) matches Some(f) && f.to
            == ctx.fee_account && f.amount == fee_for(amount, ctx.vault.fee)),
        fee_for(amount, ctx.vault.fee) == 0 ==> fee_request(ctx, amount) is None,
        payout_request(ctx, amount).amount + fee_for(amount, ctx.vault.fee) == amount,
        withdrawn(ctx, amount).user_deposit.amount == ctx.user_deposit.amount - amount,
{
    lemma_fee_bounded(amount, ctx.vault.fee);
}

/// With a zero fee rate nothing goes to the collector and the user receives
/// the whole amount.
pub proof fn law_zero_fee(ctx: Withdraw, amount: u64)
    requires
        ctx.vault.fee == 0,
        amount <= ctx.user_deposit.amount,
    ensures
        fee_for(amount, 0) == 0,
        fee_request(ctx, amount) is None,
        payout_request(ctx, amount).amount == amount,
{
}

} // verus!
