use vstd::prelude::*;
use crate::types::{ErrorCode, Key};
use anchor_lang::prelude::Pubkey;

verus! {

/// The address that `program` derives from `seed`, with its bump seed, or none
/// when no bump seed gives an address off the curve.
pub uninterp spec fn program_address_of(seed: Seq<u8>, program: Key) -> Option<(Key, u8)>;

/// Relies on `Pubkey::try_find_program_address` (solana-program): a deterministic
/// search, from bump 255 downwards, for the first address derived from the seed
/// and the program id that lies off the ed25519 curve.
#[verifier::external_body]
fn try_find_program_address(seed: &[u8], program: Key) -> (r: Option<(Key, u8)>)
    ensures
        r == program_address_of(seed@, program),
{
    Pubkey::try_find_program_address(&[seed], &Pubkey::new_from_array(program.bytes)).map(
        |(k, bump)| (Key { bytes: k.to_bytes() }, bump),
    )
}

/// The seed of the address allowed to mint farm rewards: the bytes of "farm-mint".
pub open spec fn farm_mint_seed() -> Seq<u8> {
    seq![102u8, 97u8, 114u8, 109u8, 45u8, 109u8, 105u8, 110u8, 116u8]
}

/// Whether `authority` is the derived address; on success, its bump seed.
pub open spec fn authority_check(derived: Option<(Key, u8)>, authority: Key) -> Result<u8, ErrorCode> {
    match derived {
        Some((k, bump)) => if k@ == authority@ {
            Ok(bump)
        } else {
            Err(ErrorCode::InvalidAuthority)
        },
        None => Err(ErrorCode::InvalidAuthority),
    }
}

/// Compares a claimed mint authority with the address derived for it.
pub fn check_mint_authority(derived: Option<(Key, u8)>, authority: Key) -> (r: Result<u8, ErrorCode>)
    ensures
        r == authority_check(derived, authority),
{
    match derived {
        Some((k, bump)) => if k == authority {
            Ok(bump)
        } else {
            Err(ErrorCode::InvalidAuthority)
        },
        None => Err(ErrorCode::InvalidAuthority),
    }
}

/// Checks that `authority` is the farm-reward mint authority of `token_program`
/// and returns the bump seed that signs for it.
pub fn mint_authority_bump(authority: Key, token_program: Key) -> (r: Result<u8, ErrorCode>)
    ensures
        r == authority_check(program_address_of(farm_mint_seed(), token_program), authority),
{
    let seed: [u8; 9] = [102u8, 97u8, 114u8, 109u8, 45u8, 109u8, 105u8, 110u8, 116u8];
    assert(seed@ =~= farm_mint_seed());
    let derived = try_find_program_address(seed.as_slice(), token_program);
    check_mint_authority(derived, authority)
}

} // verus!
