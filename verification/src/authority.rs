//! The derived-authority resolver.
//!
//! The program's authority over escrowed assets is an address computed
//! deterministically from the program's own identity and the fixed label
//! `"escrow"`, together with the smallest bump value that pushes the
//! result off the curve of addresses that could have a private key. It is
//! recomputed on every handler call and never persisted.

use vstd::prelude::*;

verus! {

/// The derived authority and bump for a program identity, under the fixed
/// label `"escrow"`; `None` in the vanishing case that no bump value
/// yields an off-curve address.
pub uninterp spec fn spec_escrow_authority(program_id: Seq<u8>) -> Option<(Seq<u8>, u8)>;

/// Relies on solana_program's `Pubkey::try_find_program_address` with the
/// single seed `b"escrow"`: a pure function of the seed and the program
/// identity, returning the derived address and its bump, or `None` when no
/// bump yields an off-curve address.
#[verifier::external_body]
pub(crate) fn derive_escrow_authority(program_id: &[u8; 32]) -> (r: Option<([u8; 32], u8)>)
    ensures
        r is Some <==> spec_escrow_authority(program_id@) is Some,
        r matches Some(p) ==> spec_escrow_authority(program_id@) matches Some(q)
            && p.0@ == q.0 && p.1 == q.1,
{
    let pid = solana_program::pubkey::Pubkey::new_from_array(*program_id);
    solana_program::pubkey::Pubkey::try_find_program_address(&[b"escrow"], &pid)
        .map(|(address, bump)| (address.to_bytes(), bump))
}

} // verus!
