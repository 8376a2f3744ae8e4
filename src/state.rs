use vstd::prelude::*;
use crate::key::Pubkey;

verus! {

/// Largest fee rate, in basis points: 10000 is the whole amount.
pub const MAX_FEE_BPS: u64 = 10000;

/// Configuration of one asset pool.
#[derive(Clone, Copy, Debug)]
pub struct Vault {
    /// The only identity that may change the fee.
    pub owner: Pubkey,
    /// The token this vault pools; never changes after creation.
    pub token_mint: Pubkey,
    /// Fee charged on withdrawal, in basis points.
    pub fee: u64,
    /// Bump seed that, with the vault's seed, lets the vault sign for its own
    /// token account.
    pub bump: u8,
}

impl Vault {
    /// A vault's fee never exceeds the whole amount.
    pub open spec fn wf(self) -> bool {
        self.fee <= MAX_FEE_BPS
    }
}

/// Balance that one user holds in one vault.
#[derive(Clone, Copy, Debug)]
pub struct UserDeposit {
    pub user: Pubkey,
    pub vault: Pubkey,
    pub amount: u64,
}

impl UserDeposit {
    /// A record whose user was never set: its address was allocated but the
    /// first deposit has not filled it in.
    pub open spec fn is_blank(self) -> bool {
        self.user.is_default()
    }
}

/// Failure reported by the transfer service, with its numeric code.
#[derive(Clone, Copy, Debug, PartialEq, Eq, Structural)]
pub struct TransferError {
    pub code: u64,
}

#[derive(Clone, Copy, Debug, PartialEq, Eq, Structural)]
pub enum ErrorCode {
    /// A withdrawal asked for more than the user's tracked balance.
    InsufficientFunds,
    /// A balance update would leave the range of `u64`.
    OverflowError,
    /// A fee rate above `MAX_FEE_BPS`.
    InvalidFee,
    /// A fee change signed by someone other than the vault's owner.
    NotOwner,
    /// A token transfer that the operation needed did not happen.
    TransferFailed(TransferError),
}

impl ErrorCode {
    /// The human-readable message of each error.
    pub fn message(&self) -> (r: &'static str)
        ensures
            *self == ErrorCode::InsufficientFunds ==> r@ == "Insufficient funds for withdrawal"@,
            *self == ErrorCode::OverflowError ==> r@ == "Arithmetic overflow"@,
            *self == ErrorCode::InvalidFee ==> r@ == "Invalid fee percentage"@,
            *self == ErrorCode::NotOwner ==> r@ == "Signer is not the vault owner"@,
            self is TransferFailed ==> r@ == "Token transfer failed"@,
    {
        match self {
            ErrorCode::InsufficientFunds => "Insufficient funds for withdrawal",
            ErrorCode::OverflowError => "Arithmetic overflow",
            ErrorCode::InvalidFee => "Invalid fee percentage",
            ErrorCode::NotOwner => "Signer is not the vault owner",
            ErrorCode::TransferFailed(_) => "Token transfer failed",
        }
    }
}

/// Who authorizes a token transfer.
#[derive(Clone, Copy, Debug, PartialEq, Eq)]
pub enum Authority {
    /// The user's own signature.
    User(Pubkey),
    /// The vault itself, signing with its seed and this bump.
    Vault { bump: u8 },
}

/// One movement of tokens that an operation asks the transfer service for.
#[derive(Clone, Copy, Debug, PartialEq, Eq)]
pub struct TransferRequest {
    /// Token account debited.
    pub from: Pubkey,
    /// Token account credited.
    pub to: Pubkey,
    pub authority: Authority,
    pub amount: u64,
}

} // verus!
