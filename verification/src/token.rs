//! The escrow program's view of the token sub-program.
//!
//! The token program's fixed address and the balance read out of a token
//! account's data area are the only two things the validation logic needs
//! from it; the actual authority-reassignment, transfer and close
//! operations are issued by the runtime glue from the operation values the
//! handlers return.

use vstd::prelude::*;
use vstd::bytes::spec_u64_from_le_bytes;

verus! {

/// The token program's fixed 32-byte address.
pub open spec fn spec_token_program_id() -> Seq<u8> {
    seq![
        6u8, 221u8, 246u8, 225u8, 215u8, 101u8, 161u8, 147u8,
        217u8, 203u8, 225u8, 70u8, 206u8, 235u8, 121u8, 172u8,
        28u8, 180u8, 133u8, 237u8, 95u8, 91u8, 55u8, 145u8,
        58u8, 140u8, 245u8, 133u8, 126u8, 255u8, 0u8, 169u8,
    ]
}

/// The token program's address as a plain byte array.
pub fn token_program_id() -> (r: [u8; 32])
    ensures
        r@ == spec_token_program_id(),
{
    let r: [u8; 32] = [
        6, 221, 246, 225, 215, 101, 161, 147,
        217, 203, 225, 70, 206, 235, 121, 172,
        28, 180, 133, 237, 95, 91, 55, 145,
        58, 140, 245, 133, 126, 255, 0, 169,
    ];
    proof {
        assert(r@ =~= spec_token_program_id());
    }
    r
}

/// Whether a byte string is a token account the token program can read:
/// its own fixed 165-byte layout, with every tagged field in range and the
/// account marked initialized.
pub uninterp spec fn spec_token_account_valid(data: Seq<u8>) -> bool;

/// Relies on spl_token's `Account::unpack`: it accepts exactly the valid
/// 165-byte token-account encodings, and the account's balance is the
/// little-endian 64-bit integer at bytes 64..72 of the data.
#[verifier::external_body]
pub(crate) fn read_token_account_amount(data: &[u8]) -> (r: Option<u64>)
    ensures
        r is Some <==> spec_token_account_valid(data@),
        r matches Some(amount) ==> data@.len() == 165
            && amount == spec_u64_from_le_bytes(data@.subrange(64, 72)),
{
    match <spl_token::state::Account as solana_program::program_pack::Pack>::unpack(data) {
        Ok(account) => Some(account.amount),
        Err(_) => None,
    }
}

/// One reassignment of a token account's owning authority.
#[derive(Clone, Copy, Debug, PartialEq, Eq)]
pub struct SetAuthorityOp {
    /// The token account whose authority changes.
    pub account: [u8; 32],
    /// The authority it is handed to.
    pub new_authority: [u8; 32],
    /// The authority that must approve the change.
    pub current_authority: [u8; 32],
}

/// One transfer between token accounts.
#[derive(Clone, Copy, Debug, PartialEq, Eq)]
pub struct TransferOp {
    /// The account debited.
    pub source: [u8; 32],
    /// The account credited.
    pub destination: [u8; 32],
    /// The authority that approves the transfer.
    pub authority: [u8; 32],
    /// The amount moved.
    pub amount: u64,
    /// `None` when the authority signs the transaction itself; `Some(bump)`
    /// when it is the derived authority, asserted via the fixed label and
    /// this bump.
    pub signer_bump: Option<u8>,
}

/// One closure of a token account, refunding its balance.
#[derive(Clone, Copy, Debug, PartialEq, Eq)]
pub struct CloseAccountOp {
    /// The token account being closed.
    pub account: [u8; 32],
    /// The account its balance is refunded to.
    pub destination: [u8; 32],
    /// The authority that approves the closure.
    pub authority: [u8; 32],
    /// The derived-authority bump the closure is signed with.
    pub signer_bump: u8,
}

} // verus!
