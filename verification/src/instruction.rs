//! Instruction payload decoding.
//!
//! A payload is a one-byte tag followed by an amount as a 64-bit
//! little-endian integer: tag 0 opens an escrow, tag 1 settles one. Any
//! other tag, or a payload too short to hold the amount, is rejected as
//! `InvalidInstruction`.

use vstd::prelude::*;
use vstd::bytes::{spec_u64_from_le_bytes, u64_from_le_bytes};
use vstd::slice::slice_subrange;

use crate::error::{EscrowError, ProgramFailure};

verus! {

/// A decoded instruction for this program.
#[derive(Clone, Copy, Debug, PartialEq, Eq, Structural)]
pub enum EscrowInstruction {
    /// Starts the trade: populates the escrow record and hands the holding
    /// account's authority to the derived authority.
    ///
    /// Accounts expected, in order: the initializer (signer), the holding
    /// (temporary token) account, the initializer's receiving token
    /// account, the escrow record account, the rent sysvar account, and
    /// the token program.
    InitEscrow {
        /// The amount of the counter-asset the initializer expects.
        amount: u64,
    },
    /// Completes the trade: pays the initializer, pays the taker, and
    /// closes the holding and record accounts.
    ///
    /// Accounts expected, in order: the taker (signer), the taker's paying
    /// token account, the taker's receiving token account, the holding
    /// account, the initializer's main account, the initializer's
    /// receiving token account, the escrow record account, the token
    /// program, and the derived-authority account.
    Exchange {
        /// The amount the taker expects the holding account to hold.
        amount: u64,
    },
}

/// What decoding a payload yields: the instruction, or the first error.
pub open spec fn spec_unpack_instruction(s: Seq<u8>) -> Result<EscrowInstruction, ProgramFailure> {
    if s.len() == 0 {
        Err(ProgramFailure::Custom(EscrowError::InvalidInstruction))
    } else if s.len() < 9 {
        Err(ProgramFailure::Custom(EscrowError::InvalidInstruction))
    } else if s[0] == 0 {
        Ok(EscrowInstruction::InitEscrow { amount: spec_u64_from_le_bytes(s.subrange(1, 9)) })
    } else if s[0] == 1 {
        Ok(EscrowInstruction::Exchange { amount: spec_u64_from_le_bytes(s.subrange(1, 9)) })
    } else {
        Err(ProgramFailure::Custom(EscrowError::InvalidInstruction))
    }
}

impl EscrowInstruction {
    /// Decodes a payload: the first byte selects the instruction, the next
    /// eight bytes are its amount.
    pub fn unpack(input: &[u8]) -> (r: Result<EscrowInstruction, ProgramFailure>)
        ensures
            r == spec_unpack_instruction(input@),
    {
        if input.len() == 0 {
            return Err(ProgramFailure::from(EscrowError::InvalidInstruction));
        }
        let tag = *vstd::slice::slice_index_get(input, 0);
        let rest = slice_subrange(input, 1, input.len());
        proof {
            if input@.len() >= 9 {
                assert(rest@.subrange(0, 8) =~= input@.subrange(1, 9));
            }
        }
        match tag {
            0 => {
                let amount = Self::unpack_amount(rest)?;
                Ok(EscrowInstruction::InitEscrow { amount })
            },
            1 => {
                let amount = Self::unpack_amount(rest)?;
                Ok(EscrowInstruction::Exchange { amount })
            },
            _ => Err(ProgramFailure::from(EscrowError::InvalidInstruction)),
        }
    }

    /// Decodes an amount from the first eight bytes of `input`; a shorter
    /// input is `InvalidInstruction`.
    pub fn unpack_amount(input: &[u8]) -> (r: Result<u64, ProgramFailure>)
        ensures
            input@.len() >= 8 ==> r == Result::<u64, ProgramFailure>::Ok(spec_u64_from_le_bytes(input@.subrange(0, 8))),
            input@.len() < 8 ==> r == Result::<u64, ProgramFailure>::Err(ProgramFailure::Custom(EscrowError::InvalidInstruction)),
    {
        if input.len() < 8 {
            return Err(ProgramFailure::from(EscrowError::InvalidInstruction));
        }
        let amount_bytes = slice_subrange(input, 0, 8);
        Ok(u64_from_le_bytes(amount_bytes))
    }
}

} // verus!
