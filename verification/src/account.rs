//! Plain-value model of a ledger account.
//!
//! The hosting runtime loads each account before a handler runs; a handler
//! sees the loaded state as a `LedgerAccount`: the fields the protocol's
//! validation logic reads, as plain values.

use vstd::prelude::*;
use vstd::slice::slice_index_get;

verus! {

/// One entry of the caller-supplied positional account list.
#[derive(Clone, Debug, PartialEq, Eq)]
pub struct LedgerAccount {
    /// The account's address.
    pub key: [u8; 32],
    /// Whether this account signed the transaction.
    pub is_signer: bool,
    /// The program that owns the account.
    pub owner: [u8; 32],
    /// The account's balance in the ledger's native unit.
    pub lamports: u64,
    /// The account's data area.
    pub data: Vec<u8>,
}

/// Byte-for-byte equality of two byte strings.
pub fn bytes_eq(a: &[u8], b: &[u8]) -> (r: bool)
    ensures
        r <==> a@ =~= b@,
{
    let a_len: usize = a.len();
    if a_len != b.len() {
        return false;
    }
    let mut i: usize = 0;
    while i < a_len
        invariant
            i <= a_len,
            a_len == a@.len() == b@.len(),
            forall|j: int| 0 <= j < i ==> a@[j] == b@[j],
        decreases a_len - i,
    {
        if *slice_index_get(a, i) != *slice_index_get(b, i) {
            return false;
        }
        i = i + 1;
    }
    true
}

} // verus!
