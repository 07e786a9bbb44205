//! The two instructions and their wire form: one opcode byte, then the amount
//! in eight little-endian bytes.

use vstd::prelude::*;
use crate::bytes::{le_u64, lemma_le_u64_bounds, read_u64_le};
use crate::error::EscrowError;

verus! {

#[derive(Clone, Copy, Debug, PartialEq, Eq)]
pub enum EscrowInstruction {
    /// Opcode 0: open an escrow that asks `amount` in return for the deposit.
    InitEscrow { amount: u64 },
    /// Opcode 1: fulfil an escrow whose custody account holds `amount`.
    Exchange { amount: u64 },
}

/// The instruction that a byte string encodes, if it encodes one. Bytes after
/// the amount are ignored.
pub open spec fn parse_instruction(input: Seq<u8>) -> Option<EscrowInstruction> {
    if input.len() < 9 {
        None
    } else if input[0] == 0 {
        Some(EscrowInstruction::InitEscrow { amount: le_u64(input.subrange(1, 9)) as u64 })
    } else if input[0] == 1 {
        Some(EscrowInstruction::Exchange { amount: le_u64(input.subrange(1, 9)) as u64 })
    } else {
        None
    }
}

impl EscrowInstruction {
    /// Decodes an instruction, or refuses the bytes as `InvalidInstruction`.
    pub fn unpack(input: &[u8]) -> (r: Result<EscrowInstruction, EscrowError>)
        ensures
            match r {
                Ok(instruction) => parse_instruction(input@) == Some(instruction),
                Err(e) => e == EscrowError::InvalidInstruction && parse_instruction(input@)
                    is None,
            },
    {
        if input.len() < 9 {
            return Err(EscrowError::InvalidInstruction);
        }
        let tag = input[0];
        if tag > 1 {
            return Err(EscrowError::InvalidInstruction);
        }
        let amount = read_u64_le(input, 1);
        proof {
            lemma_le_u64_bounds(input@.subrange(1, 9));
        }
        if tag == 0 {
            Ok(EscrowInstruction::InitEscrow { amount })
        } else {
            Ok(EscrowInstruction::Exchange { amount })
        }
    }
}

} // verus!
