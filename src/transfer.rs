use vstd::prelude::*;
use crate::address::Address;
use crate::types::GameError;
use solana_program::instruction::Instruction;
use solana_program::program_error::ProgramError;
use solana_program::pubkey::Pubkey;

verus! {

#[verifier::external_type_specification]
#[verifier::external_body]
pub struct ExInstruction(Instruction);

#[verifier::external_type_specification]
#[verifier::external_body]
pub struct ExProgramError(ProgramError);

/// Address of the token program, `TokenkegQfeZyiNwAJbNbGKPFXCWuBvf9Ss623VQ5DA`.
pub open spec fn token_program_id() -> Seq<u8> {
    seq![
        6u8, 221, 246, 225, 215, 101, 161, 147, 217, 203, 225, 70, 206, 235, 121, 172, 28, 180,
        133, 237, 95, 91, 55, 145, 58, 140, 245, 133, 126, 255, 0, 169,
    ]
}

/// Relies on `spl_token::instruction::transfer`, which refuses any program id
/// other than the token program's and otherwise builds the instruction. The
/// authority also signs, as the one entry of the signer list.
#[verifier::external_body]
fn token_transfer(
    token_program: &Address,
    source: &Address,
    destination: &Address,
    authority: &Address,
    amount: u64,
) -> (r: Result<Instruction, ProgramError>)
    ensures
        r is Ok <==> token_program@ == token_program_id(),
{
    let authority = Pubkey::new_from_array(authority.bytes);
    spl_token::instruction::transfer(
        &Pubkey::new_from_array(token_program.bytes),
        &Pubkey::new_from_array(source.bytes),
        &Pubkey::new_from_array(destination.bytes),
        &authority,
        &[&authority],
        amount,
    )
}

/// The four accounts of a transfer, in the order the caller must supply them.
#[derive(Clone, Copy, Debug)]
pub struct TransferAccounts {
    pub source: Address,
    pub destination: Address,
    pub authority: Address,
    pub token_program: Address,
}

/// Reads the transfer's accounts from the first four positions of `accounts`.
pub fn transfer_accounts(accounts: &Vec<Address>) -> (r: Result<TransferAccounts, GameError>)
    ensures
        accounts@.len() < 4 <==> r == Err::<TransferAccounts, GameError>(
            GameError::NotEnoughAccounts,
        ),
        accounts@.len() >= 4 <==> r is Ok,
        r is Ok ==> r == Ok::<TransferAccounts, GameError>(
            TransferAccounts {
                source: accounts@[0],
                destination: accounts@[1],
                authority: accounts@[2],
                token_program: accounts@[3],
            },
        ),
{
    if accounts.len() < 4 {
        return Err(GameError::NotEnoughAccounts);
    }
    Ok(
        TransferAccounts {
            source: accounts[0],
            destination: accounts[1],
            authority: accounts[2],
            token_program: accounts[3],
        },
    )
}

/// Builds the token-program instruction that moves `amount` from the first
/// account to the second, signed by the third; the fourth must be the token
/// program. Either the whole amount moves when it is run, or nothing does.
pub fn transfer_instruction(accounts: &Vec<Address>, amount: u64) -> (r: Result<
    Instruction,
    GameError,
>)
    ensures
        accounts@.len() < 4 ==> r is Err && r->Err_0 == GameError::NotEnoughAccounts,
        accounts@.len() >= 4 && accounts@[3]@ != token_program_id() ==> r is Err && r->Err_0
            == GameError::InvalidTokenProgram,
        accounts@.len() >= 4 && accounts@[3]@ == token_program_id() <==> r is Ok,
{
    let a = match transfer_accounts(accounts) {
        Ok(a) => a,
        Err(e) => {
            return Err(e);
        },
    };
    match token_transfer(&a.token_program, &a.source, &a.destination, &a.authority, amount) {
        Ok(ix) => Ok(ix),
        Err(_) => Err(GameError::InvalidTokenProgram),
    }
}

} // verus!
