//! Ledger and authorization core of a single-asset token vault.
//!
//! Users deposit a fungible token into a shared vault and withdraw it again,
//! paying a fee in basis points that goes to a collector account. The vault's
//! owner may change that fee. Token movements themselves are carried out by an
//! outside transfer service: the operations here say which transfers to make
//! and update the records once the outcome is known. Any failure leaves the
//! records as they were.
mod address;
mod admin;
mod deposit;
mod key;
pub mod laws;
mod state;
mod withdraw;

pub use address::{user_deposit_address, vault_address, vault_signer_seeds};
pub use admin::{change_fee, initialize, ChangeFee, Initialize};
pub use deposit::{deposit, deposit_transfer, Deposit};
pub use key::Pubkey;
pub use state::{Authority, ErrorCode, TransferError, TransferRequest, UserDeposit, Vault, MAX_FEE_BPS};
pub use withdraw::{fee_of, withdraw, withdraw_transfers, Withdraw, WithdrawPlan};
