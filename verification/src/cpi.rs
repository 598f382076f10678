//! Trusted boundary to the external services: declarations of the Solana
//! instruction types, the canonical program addresses, the derivation of the
//! freeze authority's address, and the two pure instruction builders. The
//! host performs the built instructions; nothing here touches the chain.

use vstd::prelude::*;
use crate::keys::TOKEN_PROGRAM_ID;
use crate::keys::TOKEN_METADATA_PROGRAM_ID;

verus! {

#[verifier::external_type_specification]
#[verifier::external_body]
pub struct ExPubkey(solana_program::pubkey::Pubkey);

#[verifier::external_type_specification]
#[verifier::external_body]
pub struct ExInstruction(solana_program::instruction::Instruction);

#[verifier::external_type_specification]
#[verifier::external_body]
pub struct ExProgramError(solana_program::program_error::ProgramError);

/// The address and bump seed that Solana's program-derived-address search
/// finds for the seeds `(tag, candy_machine)` under the given program; a pure
/// function of its arguments.
pub uninterp spec fn freeze_pda_derivation(tag: Seq<u8>, candy_machine: Seq<u8>, program: Seq<u8>) -> Option<(Seq<u8>, u8)>;

/// The metadata program's "thaw delegated account" instruction built from the
/// given keys; a pure function of its arguments.
pub uninterp spec fn thaw_instruction_of(delegate: Seq<u8>, token_account: Seq<u8>, edition: Seq<u8>, mint: Seq<u8>, token_program: Seq<u8>) -> solana_program::instruction::Instruction;

/// The token program's "revoke delegate" instruction built from the given
/// keys; a pure function of its arguments.
pub uninterp spec fn revoke_instruction_of(token_program: Seq<u8>, token_account: Seq<u8>, owner: Seq<u8>) -> solana_program::instruction::Instruction;

/// Relies on `spl_token::ID`: the token program's address is the canonical
/// one recorded in `TOKEN_PROGRAM_ID`.
#[verifier::external_body]
pub(crate) fn spl_token_program_id() -> (r: [u8; 32])
    ensures
        r@ == TOKEN_PROGRAM_ID@,
{
    spl_token::ID.to_bytes()
}

/// Relies on `mpl_token_metadata::ID`: the metadata program's address is the
/// canonical one recorded in `TOKEN_METADATA_PROGRAM_ID`.
#[verifier::external_body]
pub(crate) fn token_metadata_program_id() -> (r: [u8; 32])
    ensures
        r@ == TOKEN_METADATA_PROGRAM_ID@,
{
    mpl_token_metadata::ID.to_bytes()
}

/// Relies on `solana_program::pubkey::Pubkey::try_find_program_address` with
/// the seeds `(tag, candy_machine)`: the search is deterministic in its
/// arguments, and `None` is the statistically improbable case that no bump
/// seed yields a valid derived address.
#[verifier::external_body]
pub(crate) fn derive_freeze_address(tag: &[u8; 6], candy_machine: &[u8; 32], program_id: &[u8; 32]) -> (r: Option<([u8; 32], u8)>)
    ensures
        match r {
            Some(found) => freeze_pda_derivation(tag@, candy_machine@, program_id@)
                == Some((found.0@, found.1)),
            None => freeze_pda_derivation(tag@, candy_machine@, program_id@) is None,
        },
{
    let program = solana_program::pubkey::Pubkey::new_from_array(*program_id);
    match solana_program::pubkey::Pubkey::try_find_program_address(
        &[tag.as_slice(), candy_machine.as_slice()],
        &program,
    ) {
        Some((key, bump)) => Some((key.to_bytes(), bump)),
        None => None,
    }
}

/// Relies on `mpl_token_metadata::instructions::ThawDelegatedAccount`: its
/// `instruction` method builds the metadata program's thaw instruction from
/// exactly the given keys, with no other input.
#[verifier::external_body]
pub(crate) fn build_thaw_instruction(delegate: &[u8; 32], token_account: &[u8; 32], edition: &[u8; 32], mint: &[u8; 32], token_program: &[u8; 32]) -> (r: solana_program::instruction::Instruction)
    ensures
        r == thaw_instruction_of(delegate@, token_account@, edition@, mint@, token_program@),
{
    mpl_token_metadata::instructions::ThawDelegatedAccount {
        delegate: solana_program::pubkey::Pubkey::new_from_array(*delegate),
        token_account: solana_program::pubkey::Pubkey::new_from_array(*token_account),
        edition: solana_program::pubkey::Pubkey::new_from_array(*edition),
        mint: solana_program::pubkey::Pubkey::new_from_array(*mint),
        token_program: solana_program::pubkey::Pubkey::new_from_array(*token_program),
    }
    .instruction()
}

/// Relies on `spl_token::instruction::revoke` with no multisig signers: it
/// returns the revoke instruction built from exactly the given keys when the
/// supplied token program address is the canonical one, and
/// `IncorrectProgramId` otherwise.
#[verifier::external_body]
pub(crate) fn build_revoke_instruction(token_program: &[u8; 32], token_account: &[u8; 32], owner: &[u8; 32]) -> (r: Result<solana_program::instruction::Instruction, solana_program::program_error::ProgramError>)
    ensures
        r is Ok <==> token_program@ == TOKEN_PROGRAM_ID@,
        r is Ok ==> r->Ok_0 == revoke_instruction_of(token_program@, token_account@, owner@),
{
    spl_token::instruction::revoke(
        &solana_program::pubkey::Pubkey::new_from_array(*token_program),
        &solana_program::pubkey::Pubkey::new_from_array(*token_account),
        &solana_program::pubkey::Pubkey::new_from_array(*owner),
        &[],
    )
}

} // verus!
