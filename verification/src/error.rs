//! Error taxonomy of the escrow program.
//!
//! `EscrowError` holds the failures specific to the escrow protocol; the
//! runtime-level failures that the handlers report alongside them are
//! collected in `ProgramFailure`, with the escrow errors nested under
//! `ProgramFailure::Custom`, mirroring how the hosting runtime carries a
//! program's own error codes.

use vstd::prelude::*;

verus! {

/// Failures specific to the escrow protocol.
#[derive(Clone, Copy, Debug, PartialEq, Eq, Structural)]
pub enum EscrowError {
    /// The instruction payload could not be decoded.
    InvalidInstruction,
    /// The escrow record account's balance does not clear the runtime's
    /// eviction threshold for its size.
    NotRentExempt,
    /// The settlement amount argument disagrees with the holding account's
    /// live balance.
    ExpectedAmountMismatch,
    /// Crediting the rent refund would overflow a 64-bit balance.
    AmountOverflow,
}

/// The full failure taxonomy a handler call can surface: the runtime-level
/// failures plus the escrow-specific ones under `Custom`.
#[derive(Clone, Copy, Debug, PartialEq, Eq, Structural)]
pub enum ProgramFailure {
    /// A required signer did not sign the transaction.
    MissingRequiredSignature,
    /// An account is not owned by the expected program.
    IncorrectProgramId,
    /// The record account is already populated.
    AccountAlreadyInitialized,
    /// Account data failed to decode, or a recorded identity disagrees with a
    /// supplied account.
    InvalidAccountData,
    /// The positional account list is shorter than the handler's contract.
    NotEnoughAccountKeys,
    /// No usable derived authority exists for the program identity.
    InvalidSeeds,
    /// An escrow-specific failure.
    Custom(EscrowError),
}

impl From<EscrowError> for ProgramFailure {
    fn from(e: EscrowError) -> (r: ProgramFailure) {
        ProgramFailure::Custom(e)
    }
}

impl vstd::std_specs::convert::FromSpecImpl<EscrowError> for ProgramFailure {
    open spec fn obeys_from_spec() -> bool {
        true
    }

    open spec fn from_spec(e: EscrowError) -> ProgramFailure {
        ProgramFailure::Custom(e)
    }
}

} // verus!
