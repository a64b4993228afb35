//! Tests for the record codec and the instruction decoder.

use escrow::error::{EscrowError, ProgramFailure};
use escrow::instruction::EscrowInstruction;
use escrow::state::{Escrow, ESCROW_LEN};

fn key(tag: u8) -> [u8; 32] {
    let mut k = [0u8; 32];
    k[0] = tag;
    k[31] = tag.wrapping_add(7);
    k
}

fn sample_record() -> Escrow {
    Escrow {
        is_initialized: true,
        initializer_pubkey: key(1),
        temp_token_account_pubkey: key(2),
        initializer_token_to_receive_account_pubkey: key(3),
        expected_amount: 0x1122334455667788,
    }
}

#[test]
fn pack_produces_exact_layout() {
    let record = sample_record();
    let mut bytes = vec![0u8; ESCROW_LEN];
    record.pack_into_slice(&mut bytes);
    let mut expected = Vec::new();
    expected.push(1u8);
    expected.extend_from_slice(&key(1));
    expected.extend_from_slice(&key(2));
    expected.extend_from_slice(&key(3));
    expected.extend_from_slice(&0x1122334455667788u64.to_le_bytes());
    assert_eq!(bytes, expected);
}

#[test]
fn decode_encode_round_trip() {
    let record = sample_record();
    let mut bytes = vec![0u8; ESCROW_LEN];
    record.pack_into_slice(&mut bytes);
    let decoded = Escrow::unpack(&bytes).unwrap();
    assert_eq!(decoded, record);
    let decoded_permissive = Escrow::unpack_from_slice(&bytes).unwrap();
    assert_eq!(decoded_permissive, record);
}

#[test]
fn round_trip_uninitialized_record() {
    let mut record = sample_record();
    record.is_initialized = false;
    let mut bytes = vec![0u8; ESCROW_LEN];
    record.pack_into_slice(&mut bytes);
    let decoded = Escrow::unpack_from_slice(&bytes).unwrap();
    assert_eq!(decoded, record);
}

#[test]
fn strict_decode_rejects_wrong_length() {
    assert_eq!(Escrow::unpack(&[]), Err(ProgramFailure::InvalidAccountData));
    assert_eq!(
        Escrow::unpack(&vec![1u8; ESCROW_LEN - 1]),
        Err(ProgramFailure::InvalidAccountData)
    );
    assert_eq!(
        Escrow::unpack(&vec![1u8; ESCROW_LEN + 1]),
        Err(ProgramFailure::InvalidAccountData)
    );
}

#[test]
fn strict_decode_rejects_bad_flag_byte() {
    let mut bytes = vec![0u8; ESCROW_LEN];
    bytes[0] = 2;
    assert_eq!(Escrow::unpack(&bytes), Err(ProgramFailure::InvalidAccountData));
    assert_eq!(
        Escrow::unpack_from_slice(&bytes),
        Err(ProgramFailure::InvalidAccountData)
    );
    bytes[0] = 255;
    assert_eq!(Escrow::unpack(&bytes), Err(ProgramFailure::InvalidAccountData));
}

#[test]
fn strict_decode_rejects_uninitialized_record() {
    let bytes = vec![0u8; ESCROW_LEN];
    assert_eq!(Escrow::unpack(&bytes), Err(ProgramFailure::InvalidAccountData));
    let permissive = Escrow::unpack_from_slice(&bytes).unwrap();
    assert!(!permissive.is_initialized());
}

#[test]
fn unpack_instruction_init() {
    let mut payload = vec![0u8];
    payload.extend_from_slice(&100u64.to_le_bytes());
    assert_eq!(
        EscrowInstruction::unpack(&payload),
        Ok(EscrowInstruction::InitEscrow { amount: 100 })
    );
}

#[test]
fn unpack_instruction_exchange() {
    let mut payload = vec![1u8];
    payload.extend_from_slice(&50u64.to_le_bytes());
    payload.push(99);
    assert_eq!(
        EscrowInstruction::unpack(&payload),
        Ok(EscrowInstruction::Exchange { amount: 50 })
    );
}

#[test]
fn unpack_instruction_rejects_bad_tag() {
    let mut payload = vec![2u8];
    payload.extend_from_slice(&50u64.to_le_bytes());
    assert_eq!(
        EscrowInstruction::unpack(&payload),
        Err(ProgramFailure::Custom(EscrowError::InvalidInstruction))
    );
}

#[test]
fn unpack_instruction_rejects_short_payload() {
    assert_eq!(
        EscrowInstruction::unpack(&[]),
        Err(ProgramFailure::Custom(EscrowError::InvalidInstruction))
    );
    assert_eq!(
        EscrowInstruction::unpack(&[0, 1, 2, 3]),
        Err(ProgramFailure::Custom(EscrowError::InvalidInstruction))
    );
}

#[test]
fn unpack_amount_reads_little_endian() {
    let bytes = 0xA1B2C3D4E5F60718u64.to_le_bytes();
    assert_eq!(EscrowInstruction::unpack_amount(&bytes), Ok(0xA1B2C3D4E5F60718));
    assert_eq!(
        EscrowInstruction::unpack_amount(&bytes[..7]),
        Err(ProgramFailure::Custom(EscrowError::InvalidInstruction))
    );
}

#[test]
fn escrow_error_converts_to_custom_failure() {
    assert_eq!(
        ProgramFailure::from(EscrowError::AmountOverflow),
        ProgramFailure::Custom(EscrowError::AmountOverflow)
    );
    assert_eq!(
        ProgramFailure::from(EscrowError::NotRentExempt),
        ProgramFailure::Custom(EscrowError::NotRentExempt)
    );
}
