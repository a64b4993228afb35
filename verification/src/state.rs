//! The escrow record and its fixed-width binary codec.
//!
//! A record is persisted in a ledger account's data area as exactly
//! `ESCROW_LEN` bytes: one flag byte (0 or 1), three 32-byte addresses, and
//! a little-endian 64-bit amount, in that order. `unpack_from_slice` is the
//! permissive decoder (it accepts an unpopulated record); `unpack` is the
//! strict decoder used once a record must already be initialized.

use vstd::prelude::*;
use vstd::bytes::{spec_u64_from_le_bytes, spec_u64_to_le_bytes, lemma_auto_spec_u64_to_from_le_bytes, u64_from_le_bytes, u64_to_le_bytes};
use vstd::slice::{slice_index_get, slice_subrange};

use crate::error::ProgramFailure;

verus! {

/// Exact width in bytes of a persisted escrow record:
/// 1 (flag) + 32 + 32 + 32 (addresses) + 8 (amount).
pub const ESCROW_LEN: usize = 105;

/// The terms of one escrow, as recorded in the escrow record account.
#[derive(Clone, Copy, Debug, PartialEq, Eq)]
pub struct Escrow {
    /// Guards against re-opening or settling a blank account.
    pub is_initialized: bool,
    /// Party A's main account; receives refunds on close.
    pub initializer_pubkey: [u8; 32],
    /// The temporary account holding the deposited asset.
    pub temp_token_account_pubkey: [u8; 32],
    /// Party A's account for the asset it expects to receive.
    pub initializer_token_to_receive_account_pubkey: [u8; 32],
    /// The amount of the counter-asset Party A demands.
    pub expected_amount: u64,
}

/// The mathematical model of an `Escrow`: the same fields with the
/// addresses as byte sequences.
pub struct EscrowView {
    pub is_initialized: bool,
    pub initializer_pubkey: Seq<u8>,
    pub temp_token_account_pubkey: Seq<u8>,
    pub initializer_token_to_receive_account_pubkey: Seq<u8>,
    pub expected_amount: u64,
}

impl EscrowView {
    /// Every address field is exactly 32 bytes wide.
    pub open spec fn wf(self) -> bool {
        &&& self.initializer_pubkey.len() == 32
        &&& self.temp_token_account_pubkey.len() == 32
        &&& self.initializer_token_to_receive_account_pubkey.len() == 32
    }
}

impl View for Escrow {
    type V = EscrowView;

    open spec fn view(&self) -> EscrowView {
        EscrowView {
            is_initialized: self.is_initialized,
            initializer_pubkey: self.initializer_pubkey@,
            temp_token_account_pubkey: self.temp_token_account_pubkey@,
            initializer_token_to_receive_account_pubkey: self.initializer_token_to_receive_account_pubkey@,
            expected_amount: self.expected_amount,
        }
    }
}

/// The byte that records the initialization flag.
pub open spec fn spec_bool_byte(b: bool) -> u8 {
    if b { 1 } else { 0 }
}

/// The exact byte layout of a record.
pub open spec fn spec_pack(v: EscrowView) -> Seq<u8> {
    seq![spec_bool_byte(v.is_initialized)]
        + v.initializer_pubkey
        + v.temp_token_account_pubkey
        + v.initializer_token_to_receive_account_pubkey
        + spec_u64_to_le_bytes(v.expected_amount)
}

/// The record a well-formed byte string denotes.
pub open spec fn spec_unpack(s: Seq<u8>) -> EscrowView {
    EscrowView {
        is_initialized: s[0] == 1,
        initializer_pubkey: s.subrange(1, 33),
        temp_token_account_pubkey: s.subrange(33, 65),
        initializer_token_to_receive_account_pubkey: s.subrange(65, 97),
        expected_amount: spec_u64_from_le_bytes(s.subrange(97, 105)),
    }
}

/// A byte string the permissive decoder accepts: exact width and a flag
/// byte of 0 or 1.
pub open spec fn spec_bytes_wf(s: Seq<u8>) -> bool {
    s.len() == ESCROW_LEN && (s[0] == 0 || s[0] == 1)
}

/// A byte string the strict decoder accepts: well formed and already
/// marked initialized.
pub open spec fn spec_bytes_initialized(s: Seq<u8>) -> bool {
    spec_bytes_wf(s) && s[0] == 1
}

/// Round trip, record to bytes to record: packing a record and decoding
/// the bytes yields the record again, and the bytes are well formed.
pub proof fn lemma_pack_round_trip(v: EscrowView)
    requires
        v.wf(),
    ensures
        spec_pack(v).len() == ESCROW_LEN,
        spec_bytes_wf(spec_pack(v)),
        v.is_initialized ==> spec_bytes_initialized(spec_pack(v)),
        spec_unpack(spec_pack(v)) == v,
{
    lemma_auto_spec_u64_to_from_le_bytes();
    let s = spec_pack(v);
    assert(s[0] == spec_bool_byte(v.is_initialized));
    assert(s.subrange(1, 33) =~= v.initializer_pubkey);
    assert(s.subrange(33, 65) =~= v.temp_token_account_pubkey);
    assert(s.subrange(65, 97) =~= v.initializer_token_to_receive_account_pubkey);
    assert(s.subrange(97, 105) =~= spec_u64_to_le_bytes(v.expected_amount));
}

/// Round trip, bytes to record to bytes: decoding a well-formed byte
/// string and packing the record again yields the same bytes.
pub proof fn lemma_unpack_round_trip(s: Seq<u8>)
    requires
        spec_bytes_wf(s),
    ensures
        spec_unpack(s).wf(),
        spec_pack(spec_unpack(s)) == s,
{
    lemma_auto_spec_u64_to_from_le_bytes();
    assert(spec_pack(spec_unpack(s)) =~= s);
}

/// Copies 32 bytes out of `src` starting at `off` into a fresh address.
fn copy_address(src: &[u8], off: usize) -> (out: [u8; 32])
    requires
        off + 32 <= src@.len(),
    ensures
        out@ == src@.subrange(off as int, off + 32),
{
    let n: usize = src.len();
    let mut out = [0u8; 32];
    let mut i: usize = 0;
    while i < 32
        invariant
            i <= 32,
            off + 32 <= n == src@.len(),
            forall|j: int| 0 <= j < i ==> out@[j] == src@[off + j],
        decreases 32 - i,
    {
        out[i] = *slice_index_get(src, off + i);
        i = i + 1;
    }
    proof {
        assert(out@ =~= src@.subrange(off as int, off + 32));
    }
    out
}

/// Appends the 32 bytes of `addr` to `dst`.
fn push_address(dst: &mut Vec<u8>, addr: &[u8; 32])
    ensures
        final(dst)@ == old(dst)@ + addr@,
{
    let mut i: usize = 0;
    while i < 32
        invariant
            i <= 32,
            dst@ == old(dst)@ + addr@.subrange(0, i as int),
        decreases 32 - i,
    {
        dst.push(addr[i]);
        proof {
            assert(addr@.subrange(0, i + 1) =~= addr@.subrange(0, i as int) + seq![addr@[i as int]]);
        }
        i = i + 1;
    }
    proof {
        assert(addr@.subrange(0, 32) =~= addr@);
    }
}

impl Escrow {
    /// Whether this record is populated.
    pub fn is_initialized(&self) -> (r: bool)
        ensures
            r == self@.is_initialized,
    {
        self.is_initialized
    }

    /// Permissive decoder: accepts any exact-width byte string whose flag
    /// byte is 0 or 1, whether or not the record is populated. Any other
    /// input is rejected as `InvalidAccountData`.
    pub fn unpack_from_slice(src: &[u8]) -> (r: Result<Escrow, ProgramFailure>)
        ensures
            r is Ok <==> spec_bytes_wf(src@),
            r matches Ok(e) ==> e@ == spec_unpack(src@),
            r is Err ==> r == Result::<Escrow, ProgramFailure>::Err(ProgramFailure::InvalidAccountData),
    {
        if src.len() != ESCROW_LEN {
            return Err(ProgramFailure::InvalidAccountData);
        }
        let flag = *slice_index_get(src, 0);
        let is_initialized = match flag {
            0 => false,
            1 => true,
            _ => {
                return Err(ProgramFailure::InvalidAccountData);
            },
        };
        let initializer_pubkey = copy_address(src, 1);
        let temp_token_account_pubkey = copy_address(src, 33);
        let initializer_token_to_receive_account_pubkey = copy_address(src, 65);
        let amount_bytes = slice_subrange(src, 97, 105);
        let expected_amount = u64_from_le_bytes(amount_bytes);
        Ok(Escrow {
            is_initialized,
            initializer_pubkey,
            temp_token_account_pubkey,
            initializer_token_to_receive_account_pubkey,
            expected_amount,
        })
    }

    /// Strict decoder: additionally rejects a record that is not yet
    /// marked initialized.
    pub fn unpack(src: &[u8]) -> (r: Result<Escrow, ProgramFailure>)
        ensures
            r is Ok <==> spec_bytes_initialized(src@),
            r matches Ok(e) ==> e@ == spec_unpack(src@),
            r is Err ==> r == Result::<Escrow, ProgramFailure>::Err(ProgramFailure::InvalidAccountData),
    {
        let escrow = Self::unpack_from_slice(src)?;
        if !escrow.is_initialized() {
            return Err(ProgramFailure::InvalidAccountData);
        }
        Ok(escrow)
    }

    /// Encodes this record over the first (and only) `ESCROW_LEN` bytes of
    /// `dst`.
    pub fn pack_into_slice(&self, dst: &mut Vec<u8>)
        requires
            old(dst)@.len() == ESCROW_LEN,
        ensures
            final(dst)@ == spec_pack(self@),
            final(dst)@.len() == ESCROW_LEN,
    {
        dst.clear();
        if self.is_initialized {
            dst.push(1);
        } else {
            dst.push(0);
        }
        push_address(dst, &self.initializer_pubkey);
        push_address(dst, &self.temp_token_account_pubkey);
        push_address(dst, &self.initializer_token_to_receive_account_pubkey);
        let mut amount_bytes = u64_to_le_bytes(self.expected_amount);
        dst.append(&mut amount_bytes);
        proof {
            lemma_auto_spec_u64_to_from_le_bytes();
            assert(dst@ =~= spec_pack(self@));
        }
    }
}

} // verus!
