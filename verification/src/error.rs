//! Why an instruction is refused.

use vstd::prelude::*;
use solana_program::program_error::ProgramError;

verus! {

/// `solana_program::program_error::ProgramError`, the host's error type.
/// Nothing is known of a value of it; the library only carries it from the
/// call that failed to the caller.
#[verifier::external_type_specification]
#[verifier::external_body]
pub struct ExProgramError(ProgramError);

/// Every way in which an instruction can fail. All but the last are found by
/// the library itself; the last carries what the host or the ledger answered.
#[derive(Debug, PartialEq, Eq)]
pub enum EscrowError {
    /// The instruction bytes hold no known opcode, or too short an amount.
    InvalidInstruction,
    /// The account list is shorter than the instruction's roles.
    NotEnoughAccounts,
    /// A party that has to authorize the instruction did not sign.
    MissingSignature,
    /// The receive account does not belong to the ledger program, or the
    /// program offered as the ledger is another.
    WrongAssetProgram,
    /// The account offered as the host's rent account is not that account, or
    /// does not hold a rent schedule.
    InvalidRent,
    /// The record storage holds less than the reserve its size asks for.
    NotRentExempt,
    /// The reserve for the record storage cannot be computed in 64 bits.
    RentOutOfRange,
    /// The record storage already holds a record.
    AlreadyInitialized,
    /// The record storage holds no record.
    UninitializedAccount,
    /// The amount claimed is not the balance held in custody.
    AmountMismatch,
    /// An account is not the one the record names, or storage does not hold
    /// what it should: a record, or an asset account in use.
    InvalidAccountData,
    /// Crediting the reclaimed reserve would exceed the largest balance.
    AmountOverflow,
    /// No custody authority exists for the program identity.
    AuthorityNotFound,
    /// The host or the ledger refused, with its own error.
    Ledger(ProgramError),
}

} // verus!
