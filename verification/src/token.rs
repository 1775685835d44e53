//! Requests to the token program, which holds every balance the exchange
//! moves.

use vstd::prelude::*;
use crate::codec::u64_le;
use crate::error::ProgramError;
use crate::instruction::{AccountMeta, Instruction, InstructionView};
use crate::pubkey::Pubkey;

verus! {

/// The bytes of the token program's key, whose base-58 form is
/// `TokenkegQfeZyiNwAJbNbGKPFXCWuBvf9Ss623VQ5DA`.
pub open spec fn token_program_key() -> Seq<u8> {
    seq![
        6u8, 221, 246, 225, 215, 101, 161, 147, 217, 203, 225, 70, 206, 235, 121, 172,
        28, 180, 133, 237, 95, 91, 55, 145, 58, 140, 245, 133, 126, 255, 0, 169,
    ]
}

/// The request that moves `amount` tokens from `source` to `destination`
/// on the word of `authority`: for the token program, on the source and
/// the destination (both writable) and the authority (signer, read
/// only), with data of tag 3 followed by the amount, little-endian.
pub open spec fn transfer_request(
    token_program: Pubkey,
    source: Pubkey,
    destination: Pubkey,
    authority: Pubkey,
    amount: u64,
) -> InstructionView {
    InstructionView {
        program_id: token_program,
        accounts: seq![
            AccountMeta { pubkey: source, is_signer: false, is_writable: true },
            AccountMeta { pubkey: destination, is_signer: false, is_writable: true },
            AccountMeta { pubkey: authority, is_signer: true, is_writable: false },
        ],
        data: seq![3u8] + u64_le(amount),
    }
}

/// Calls `spl_token::instruction::transfer` with an empty list of
/// multisignature signers.
///
/// Trusted, from that function's source: it fails exactly when the
/// program named is not the token program (the only error it can
/// return, handed on here as `None`), and otherwise returns the
/// instruction described by `transfer_request`.
#[verifier::external_body]
fn spl_transfer(
    token_program_id: &Pubkey,
    source_pubkey: &Pubkey,
    destination_pubkey: &Pubkey,
    authority_pubkey: &Pubkey,
    amount: u64,
) -> (result: Option<Instruction>)
    ensures
        result is Some <==> token_program_id@ == token_program_key(),
        result matches Some(instruction) ==> instruction@ == transfer_request(
            *token_program_id,
            *source_pubkey,
            *destination_pubkey,
            *authority_pubkey,
            amount,
        ),
{
    let key = |k: &Pubkey| solana_program::pubkey::Pubkey::new_from_array(k.bytes);
    let (program, source, destination) =
        (key(token_program_id), key(source_pubkey), key(destination_pubkey));
    let authority = key(authority_pubkey);
    let made =
        spl_token::instruction::transfer(&program, &source, &destination, &authority, &[], amount)
            .ok()?;
    let meta = |m: &solana_program::instruction::AccountMeta| AccountMeta {
        pubkey: Pubkey { bytes: m.pubkey.to_bytes() },
        is_signer: m.is_signer,
        is_writable: m.is_writable,
    };
    let accounts = made.accounts.iter().map(meta).collect();
    Some(Instruction { program_id: Pubkey { bytes: made.program_id.to_bytes() }, accounts, data: made.data })
}

/// Builds the request that moves `amount` tokens from `source_pubkey` to
/// `destination_pubkey` on the word of `authority_pubkey`. Fails with
/// `IncorrectProgramId` exactly when `token_program_id` is not the token
/// program.
pub fn transfer(
    token_program_id: &Pubkey,
    source_pubkey: &Pubkey,
    destination_pubkey: &Pubkey,
    authority_pubkey: &Pubkey,
    amount: u64,
) -> (result: Result<Instruction, ProgramError>)
    ensures
        token_program_id@ == token_program_key() ==> (result matches Ok(instruction)
            && instruction@ == transfer_request(
            *token_program_id,
            *source_pubkey,
            *destination_pubkey,
            *authority_pubkey,
            amount,
        )),
        token_program_id@ != token_program_key() ==> (result matches Err(error) && error
            == ProgramError::IncorrectProgramId),
{
    match spl_transfer(
        token_program_id,
        source_pubkey,
        destination_pubkey,
        authority_pubkey,
        amount,
    ) {
        Some(instruction) => Ok(instruction),
        None => Err(ProgramError::IncorrectProgramId),
    }
}

} // verus!
