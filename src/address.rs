use vstd::prelude::*;
use crate::key::Pubkey;

verus! {

/// What `try_find_program_address` returns for these seeds and program id:
/// the derived address and its bump seed, or nothing.
pub uninterp spec fn program_address(seeds: Seq<Seq<u8>>, program_id: Seq<u8>) -> Option<
    (Seq<u8>, u8),
>;

/// A list of seeds, seen as byte sequences.
pub open spec fn seeds_view(seeds: Seq<Vec<u8>>) -> Seq<Seq<u8>> {
    seeds.map_values(|s: Vec<u8>| s@)
}

/// A derived address and bump, seen as bytes.
pub open spec fn address_view(a: Option<(Pubkey, u8)>) -> Option<(Seq<u8>, u8)> {
    match a {
        Some((k, b)) => Some((k.bytes@, b)),
        None => None,
    }
}

/// Relies on `Pubkey::try_find_program_address` of solana_program (through
/// anchor_lang): it searches the bump seeds from 255 down for the first one
/// whose hash of seeds, bump and program id is off the curve, so its result
/// depends on the seeds and the program id alone; `None` when no bump works or
/// the seeds are too many or too long.
#[verifier::external_body]
fn find_program_address(seeds: &Vec<Vec<u8>>, program_id: &Pubkey) -> (r: Option<(Pubkey, u8)>)
    ensures
        address_view(r) == program_address(seeds_view(seeds@), program_id.bytes@),
{
    let parts: Vec<&[u8]> = seeds.iter().map(|s| s.as_slice()).collect();
    let id = anchor_lang::prelude::Pubkey::new_from_array(program_id.bytes);
    anchor_lang::prelude::Pubkey::try_find_program_address(&parts, &id).map(
        |(k, b)| (Pubkey { bytes: k.to_bytes() }, b),
    )
}

/// The seed of the vault's address: the bytes of "vault".
pub open spec fn vault_seed() -> Seq<u8> {
    seq![118u8, 97u8, 117u8, 108u8, 116u8]
}

/// The leading seed of a user's record address: the bytes of "user_deposit".
pub open spec fn user_deposit_seed() -> Seq<u8> {
    seq![117u8, 115u8, 101u8, 114u8, 95u8, 100u8, 101u8, 112u8, 111u8, 115u8, 105u8, 116u8]
}

fn vault_seed_bytes() -> (r: Vec<u8>)
    ensures
        r@ == vault_seed(),
{
    let r = vec![118u8, 97u8, 117u8, 108u8, 116u8];
    assert(r@ =~= vault_seed());
    r
}

fn user_deposit_seed_bytes() -> (r: Vec<u8>)
    ensures
        r@ == user_deposit_seed(),
{
    let r = vec![117u8, 115u8, 101u8, 114u8, 95u8, 100u8, 101u8, 112u8, 111u8, 115u8, 105u8, 116u8];
    assert(r@ =~= user_deposit_seed());
    r
}

/// The bytes of a key, as a seed.
fn key_seed(k: &Pubkey) -> (r: Vec<u8>)
    ensures
        r@ == k.bytes@,
{
    let mut r: Vec<u8> = Vec::new();
    let mut i: usize = 0;
    while i < 32
        invariant
            0 <= i <= 32,
            r@ =~= k.bytes@.subrange(0, i as int),
        decreases 32 - i,
    {
        r.push(k.bytes[i]);
        i = i + 1;
    }
    assert(r@ =~= k.bytes@);
    r
}

/// The vault's address under `program_id`, with its bump seed.
pub fn vault_address(program_id: &Pubkey) -> (r: Option<(Pubkey, u8)>)
    ensures
        address_view(r) == program_address(seq![vault_seed()], program_id.bytes@),
{
    let seeds = vec![vault_seed_bytes()];
    assert(seeds_view(seeds@) =~= seq![vault_seed()]);
    find_program_address(&seeds, program_id)
}

/// The address of the record of `user` in the vault at `vault_key`, with its
/// bump seed: one address for each pair.
pub fn user_deposit_address(program_id: &Pubkey, vault_key: &Pubkey, user: &Pubkey) -> (r: Option<
    (Pubkey, u8),
>)
    ensures
        address_view(r) == program_address(
            seq![user_deposit_seed(), vault_key.bytes@, user.bytes@],
            program_id.bytes@,
        ),
{
    let seeds = vec![user_deposit_seed_bytes(), key_seed(vault_key), key_seed(user)];
    assert(seeds_view(seeds@) =~= seq![user_deposit_seed(), vault_key.bytes@, user.bytes@]);
    find_program_address(&seeds, program_id)
}

/// The seeds with which the vault signs for its own token account: its seed
/// and its bump.
pub fn vault_signer_seeds(bump: u8) -> (r: Vec<Vec<u8>>)
    ensures
        seeds_view(r@) == seq![vault_seed(), seq![bump]],
{
    let bump_seed = vec![bump];
    let r = vec![vault_seed_bytes(), bump_seed];
    assert(bump_seed@ =~= seq![bump]);
    assert(seeds_view(r@) =~= seq![vault_seed(), seq![bump]]);
    r
}

} // verus!
