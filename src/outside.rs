use vstd::prelude::*;
use solana_program::instruction::Instruction;
use solana_program::program_error::ProgramError;
use solana_program::program_pack::Pack;
use solana_program::pubkey::Pubkey;

use crate::instruction::le_u64;
use crate::key::Key;

verus! {

#[verifier::external_type_specification]
#[verifier::external_body]
pub struct ExInstruction(Instruction);

#[verifier::external_type_specification]
#[verifier::external_body]
pub struct ExProgramError(ProgramError);

/// The address of the token ledger program.
pub open spec fn token_program_bytes() -> Seq<u8> {
    seq![
        6u8, 221, 246, 225, 215, 101, 161, 147, 217, 203, 225, 70, 206, 235, 121, 172,
        28, 180, 133, 237, 95, 91, 55, 145, 58, 140, 245, 133, 126, 255, 0, 169,
    ]
}

/// Size in bytes of a token account's data.
pub const TOKEN_ACCOUNT_LEN: usize = 165;

/// What the search for the escrow's program-derived address yields for a program.
pub uninterp spec fn escrow_authority(program_id: Seq<u8>) -> Option<(Seq<u8>, u8)>;

/// What decoding a token account's data yields as its balance.
pub uninterp spec fn token_account_amount(data: Seq<u8>) -> Option<u64>;

/// Relies on spl_token::id: the fixed address of the token program.
#[verifier::external_body]
pub(crate) fn token_program_key() -> (r: Key)
    ensures
        r@ == token_program_bytes(),
{
    Key { bytes: spl_token::id().to_bytes() }
}

/// Relies on Pubkey::try_find_program_address with the single seed "escrow":
/// a deterministic search that yields an address and its bump seed, or none.
#[verifier::external_body]
pub(crate) fn find_escrow_authority(program_id: &Key) -> (r: Option<(Key, u8)>)
    ensures
        match (r, escrow_authority(program_id@)) {
            (Some((k, b)), Some((a, c))) => k@ == a && b == c,
            (None, None) => true,
            _ => false,
        },
{
    let id = Pubkey::new_from_array(program_id.bytes);
    Pubkey::try_find_program_address(&[b"escrow"], &id).map(|(p, b)| (Key { bytes: p.to_bytes() }, b))
}

/// Relies on spl_token's Account::unpack: data of the wrong length is refused,
/// and an accepted account's balance is the little-endian u64 at bytes 64..72.
#[verifier::external_body]
pub(crate) fn unpack_token_amount(data: &Vec<u8>) -> (r: Option<u64>)
    ensures
        r == token_account_amount(data@),
        data@.len() != TOKEN_ACCOUNT_LEN ==> r is None,
        r is Some ==> r->0 == le_u64(data@.subrange(64, 72)),
{
    spl_token::state::Account::unpack(data).ok().map(|a| a.amount)
}

/// Relies on spl_token::instruction::set_authority (account owner authority):
/// it fails exactly when the given token program is not the token program.
#[verifier::external_body]
pub(crate) fn set_owner_instruction(
    token_program: &Key,
    account: &Key,
    new_owner: &Key,
    owner: &Key,
) -> (r: Result<Instruction, ProgramError>)
    ensures
        r is Ok <==> token_program@ == token_program_bytes(),
{
    let (p, a, n, o) = (Pubkey::new_from_array(token_program.bytes), Pubkey::new_from_array(account.bytes), Pubkey::new_from_array(new_owner.bytes), Pubkey::new_from_array(owner.bytes));
    spl_token::instruction::set_authority(&p, &a, Some(&n), spl_token::instruction::AuthorityType::AccountOwner, &o, &[&o])
}

/// Relies on spl_token::instruction::transfer: it fails exactly when the given
/// token program is not the token program.
#[verifier::external_body]
pub(crate) fn transfer_instruction(
    token_program: &Key,
    source: &Key,
    destination: &Key,
    authority: &Key,
    amount: u64,
) -> (r: Result<Instruction, ProgramError>)
    ensures
        r is Ok <==> token_program@ == token_program_bytes(),
{
    let (p, s, d, a) = (Pubkey::new_from_array(token_program.bytes), Pubkey::new_from_array(source.bytes), Pubkey::new_from_array(destination.bytes), Pubkey::new_from_array(authority.bytes));
    spl_token::instruction::transfer(&p, &s, &d, &a, &[&a], amount)
}

/// Relies on spl_token::instruction::close_account: it fails exactly when the
/// given token program is not the token program.
#[verifier::external_body]
pub(crate) fn close_instruction(
    token_program: &Key,
    account: &Key,
    destination: &Key,
    owner: &Key,
) -> (r: Result<Instruction, ProgramError>)
    ensures
        r is Ok <==> token_program@ == token_program_bytes(),
{
    let (p, a, d, o) = (Pubkey::new_from_array(token_program.bytes), Pubkey::new_from_array(account.bytes), Pubkey::new_from_array(destination.bytes), Pubkey::new_from_array(owner.bytes));
    spl_token::instruction::close_account(&p, &a, &d, &o, &[&o])
}

} // verus!
