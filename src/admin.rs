use vstd::prelude::*;
use crate::address::{program_address, vault_address, vault_seed};
use crate::key::Pubkey;
use crate::state::{ErrorCode, Vault, MAX_FEE_BPS};

verus! {

/// The accounts for creating a vault: the vault's derived address and bump,
/// its owner, who signs and pays, and the token it pools.
#[derive(Clone, Copy, Debug)]
pub struct Initialize {
    pub vault: Pubkey,
    pub vault_bump: u8,
    pub owner: Pubkey,
    pub token_mint: Pubkey,
}

impl Initialize {
    /// The accounts for creating the vault of `program_id`, at the one address
    /// derived from the vault's seed; `None` when no address can be derived.
    pub fn new(program_id: &Pubkey, owner: Pubkey, token_mint: Pubkey) -> (r: Option<Initialize>)
        ensures
            r is None <==> program_address(seq![vault_seed()], program_id.bytes@) is None,
            r matches Some(c) ==> c.owner == owner && c.token_mint == token_mint
                && program_address(seq![vault_seed()], program_id.bytes@) == Some(
                (c.vault.bytes@, c.vault_bump),
            ),
    {
        match vault_address(program_id) {
            Some((vault, vault_bump)) => Some(Initialize { vault, vault_bump, owner, token_mint }),
            None => None,
        }
    }
}

/// Creates the vault record: `InvalidFee` when `fee` exceeds `MAX_FEE_BPS`,
/// else a vault owned by the signer, for the given token, with that fee and
/// the bump of its address. No tokens move.
pub fn initialize(ctx: &Initialize, fee: u64) -> (r: Result<Vault, ErrorCode>)
    ensures
        fee > MAX_FEE_BPS ==> r == Err::<Vault, ErrorCode>(ErrorCode::InvalidFee),
        fee <= MAX_FEE_BPS ==> r == Ok::<Vault, ErrorCode>(
            Vault { owner: ctx.owner, token_mint: ctx.token_mint, fee, bump: ctx.vault_bump },
        ),
        r matches Ok(v) ==> v.wf(),
{
    if fee > MAX_FEE_BPS {
        return Err(ErrorCode::InvalidFee);
    }
    Ok(Vault { owner: ctx.owner, token_mint: ctx.token_mint, fee, bump: ctx.vault_bump })
}

/// The accounts for a fee change: the vault and the identity that signed.
#[derive(Clone, Copy, Debug)]
pub struct ChangeFee {
    pub vault: Vault,
    pub owner: Pubkey,
}

/// Sets the vault's fee to `new_fee`. Fails with `NotOwner` when the signer is
/// not the vault's owner, and otherwise with `InvalidFee` when `new_fee`
/// exceeds `MAX_FEE_BPS`; a failure changes nothing, and a success changes
/// the fee alone.
pub fn change_fee(ctx: &mut ChangeFee, new_fee: u64) -> (r: Result<(), ErrorCode>)
    requires
        old(ctx).vault.wf(),
    ensures
        old(ctx).owner != old(ctx).vault.owner ==> r == Err::<(), ErrorCode>(ErrorCode::NotOwner)
            && *final(ctx) == *old(ctx),
        old(ctx).owner == old(ctx).vault.owner && new_fee > MAX_FEE_BPS ==> r == Err::<
            (),
            ErrorCode,
        >(ErrorCode::InvalidFee) && *final(ctx) == *old(ctx),
        old(ctx).owner == old(ctx).vault.owner && new_fee <= MAX_FEE_BPS ==> r == Ok::<
            (),
            ErrorCode,
        >(()) && *final(ctx) == (ChangeFee { vault: Vault { fee: new_fee, ..old(ctx).vault }, ..*old(ctx) }),
        final(ctx).vault.wf(),
{
    if !ctx.owner.same_as(&ctx.vault.owner) {
        return Err(ErrorCode::NotOwner);
    }
    if new_fee > MAX_FEE_BPS {
        return Err(ErrorCode::InvalidFee);
    }
    ctx.vault.fee = new_fee;
    Ok(())
}

} // verus!
