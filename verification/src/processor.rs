//! The two escrow handlers and the dispatcher.
//!
//! Each handler reads a caller-supplied positional account list, runs the
//! protocol's full validation chain, and only then describes the asset
//! movements to issue: the handlers mutate nothing themselves, so a failed
//! call has no effect, and the runtime glue issues the returned operations
//! under the surrounding transaction's all-or-nothing guarantee. The one
//! mutating step, crediting the record account's balance back to the
//! initializer when the record is purged, is `close_escrow_account`.

use vstd::prelude::*;
use vstd::bytes::spec_u64_from_le_bytes;

use crate::account::{LedgerAccount, bytes_eq};
use crate::authority::{derive_escrow_authority, spec_escrow_authority};
use crate::error::{EscrowError, ProgramFailure};
use crate::instruction::{EscrowInstruction, spec_unpack_instruction};
use crate::state::{Escrow, EscrowView, spec_bytes_initialized, spec_bytes_wf, spec_pack, spec_unpack, ESCROW_LEN};
use crate::token::{read_token_account_amount, spec_token_account_valid, spec_token_program_id, token_program_id, CloseAccountOp, SetAuthorityOp, TransferOp};

verus! {

/// What a successful open emits: the populated record and the handover of
/// the holding account's authority.
#[derive(Clone, Debug, PartialEq, Eq)]
pub struct InitEscrowEffect {
    /// The encoded record to write into the escrow record account.
    pub record_bytes: Vec<u8>,
    /// The reassignment of the holding account to the derived authority.
    pub owner_change: SetAuthorityOp,
}

/// What a successful settlement emits: the two transfers and the closure
/// of the holding account, in issue order, plus the derived authority that
/// signs the latter two.
#[derive(Clone, Copy, Debug, PartialEq, Eq)]
pub struct ExchangeEffect {
    /// The derived authority holding the escrowed asset.
    pub authority: [u8; 32],
    /// The bump that reproduces `authority` from the program identity.
    pub bump: u8,
    /// Pay-in: the taker's asset to the initializer's receiving account.
    pub transfer_to_initializer: TransferOp,
    /// Pay-out: the holding account's full balance to the taker.
    pub transfer_to_taker: TransferOp,
    /// Closure of the emptied holding account, refunding its balance to
    /// the initializer's main account.
    pub close_temp_account: CloseAccountOp,
}

/// The operations one dispatched instruction emits.
#[derive(Clone, Debug, PartialEq, Eq)]
pub enum ProgramEffect {
    /// An open-escrow call's effect.
    Init(InitEscrowEffect),
    /// A settle-escrow call's effect.
    Exchange(ExchangeEffect),
}

/// The first check an open call fails, if any.
///
/// The open handler's positional accounts are: 0 the initializer, 1 the
/// holding account, 2 the initializer's receiving account, 3 the escrow
/// record account, 4 the rent sysvar, 5 the token program. Accounts are
/// pulled in that order, interleaved with the checks, so a list that runs
/// short fails exactly at the first pull past its end.
pub open spec fn spec_init_escrow_failure(
    accounts: Seq<LedgerAccount>,
    amount: u64,
    program_id: Seq<u8>,
    record_rent_exempt: bool,
) -> Option<ProgramFailure> {
    if accounts.len() < 1 {
        Some(ProgramFailure::NotEnoughAccountKeys)
    } else if !accounts[0].is_signer {
        Some(ProgramFailure::MissingRequiredSignature)
    } else if accounts.len() < 3 {
        Some(ProgramFailure::NotEnoughAccountKeys)
    } else if accounts[2].owner@ != spec_token_program_id() {
        Some(ProgramFailure::IncorrectProgramId)
    } else if accounts.len() < 5 {
        Some(ProgramFailure::NotEnoughAccountKeys)
    } else if !record_rent_exempt {
        Some(ProgramFailure::Custom(EscrowError::NotRentExempt))
    } else if !spec_bytes_wf(accounts[3].data@) {
        Some(ProgramFailure::InvalidAccountData)
    } else if spec_unpack(accounts[3].data@).is_initialized {
        Some(ProgramFailure::AccountAlreadyInitialized)
    } else if spec_escrow_authority(program_id) is None {
        Some(ProgramFailure::InvalidSeeds)
    } else if accounts.len() < 6 {
        Some(ProgramFailure::NotEnoughAccountKeys)
    } else if accounts[5].key@ != spec_token_program_id() {
        Some(ProgramFailure::IncorrectProgramId)
    } else {
        None
    }
}

/// The record an open call writes: fully populated from the first three
/// accounts and the amount argument.
pub open spec fn spec_init_record(accounts: Seq<LedgerAccount>, amount: u64) -> EscrowView {
    EscrowView {
        is_initialized: true,
        initializer_pubkey: accounts[0].key@,
        temp_token_account_pubkey: accounts[1].key@,
        initializer_token_to_receive_account_pubkey: accounts[2].key@,
        expected_amount: amount,
    }
}

/// What a successful open call's effect holds.
pub open spec fn spec_init_effect_ok(
    eff: InitEscrowEffect,
    accounts: Seq<LedgerAccount>,
    amount: u64,
    program_id: Seq<u8>,
) -> bool {
    &&& eff.record_bytes@ == spec_pack(spec_init_record(accounts, amount))
    &&& eff.owner_change.account@ == accounts[1].key@
    &&& spec_escrow_authority(program_id) matches Some(auth)
        && eff.owner_change.new_authority@ == auth.0
    &&& eff.owner_change.current_authority@ == accounts[0].key@
}

/// The first check a settle call fails, if any.
///
/// The settle handler's positional accounts are: 0 the taker, 1 the
/// taker's paying account, 2 the taker's receiving account, 3 the holding
/// account, 4 the initializer's main account, 5 the initializer's
/// receiving account, 6 the escrow record account, 7 the token program,
/// 8 the derived-authority account.
pub open spec fn spec_exchange_failure(
    accounts: Seq<LedgerAccount>,
    amount: u64,
    program_id: Seq<u8>,
) -> Option<ProgramFailure> {
    if accounts.len() < 1 {
        Some(ProgramFailure::NotEnoughAccountKeys)
    } else if !accounts[0].is_signer {
        Some(ProgramFailure::MissingRequiredSignature)
    } else if accounts.len() < 4 {
        Some(ProgramFailure::NotEnoughAccountKeys)
    } else if !spec_token_account_valid(accounts[3].data@) {
        Some(ProgramFailure::InvalidAccountData)
    } else if spec_escrow_authority(program_id) is None {
        Some(ProgramFailure::InvalidSeeds)
    } else if amount != spec_u64_from_le_bytes(accounts[3].data@.subrange(64, 72)) {
        Some(ProgramFailure::Custom(EscrowError::ExpectedAmountMismatch))
    } else if accounts.len() < 7 {
        Some(ProgramFailure::NotEnoughAccountKeys)
    } else if !spec_bytes_initialized(accounts[6].data@) {
        Some(ProgramFailure::InvalidAccountData)
    } else if spec_unpack(accounts[6].data@).temp_token_account_pubkey != accounts[3].key@ {
        Some(ProgramFailure::InvalidAccountData)
    } else if spec_unpack(accounts[6].data@).initializer_pubkey != accounts[4].key@ {
        Some(ProgramFailure::InvalidAccountData)
    } else if spec_unpack(accounts[6].data@).initializer_token_to_receive_account_pubkey
        != accounts[5].key@ {
        Some(ProgramFailure::InvalidAccountData)
    } else if accounts.len() < 8 {
        Some(ProgramFailure::NotEnoughAccountKeys)
    } else if accounts[7].key@ != spec_token_program_id() {
        Some(ProgramFailure::IncorrectProgramId)
    } else if accounts.len() < 9 {
        Some(ProgramFailure::NotEnoughAccountKeys)
    } else {
        None
    }
}

/// What a successful settle call's effect holds: the pay-in moves the
/// recorded expected amount from the taker's paying account to the
/// initializer's receiving account under the taker's own signature; the
/// pay-out moves the holding account's full live balance to the taker's
/// receiving account under the derived authority; the holding account is
/// closed to the initializer's main account under the derived authority.
pub open spec fn spec_exchange_effect_ok(
    eff: ExchangeEffect,
    accounts: Seq<LedgerAccount>,
    program_id: Seq<u8>,
) -> bool {
    &&& spec_escrow_authority(program_id) matches Some(auth) && {
        &&& eff.authority@ == auth.0
        &&& eff.bump == auth.1
        &&& eff.transfer_to_taker.authority@ == auth.0
        &&& eff.transfer_to_taker.signer_bump == Some(auth.1)
        &&& eff.close_temp_account.authority@ == auth.0
        &&& eff.close_temp_account.signer_bump == auth.1
    }
    &&& eff.transfer_to_initializer.source@ == accounts[1].key@
    &&& eff.transfer_to_initializer.destination@ == accounts[5].key@
    &&& eff.transfer_to_initializer.authority@ == accounts[0].key@
    &&& eff.transfer_to_initializer.amount == spec_unpack(accounts[6].data@).expected_amount
    &&& eff.transfer_to_initializer.signer_bump is None
    &&& eff.transfer_to_taker.source@ == accounts[3].key@
    &&& eff.transfer_to_taker.destination@ == accounts[2].key@
    &&& eff.transfer_to_taker.amount == spec_u64_from_le_bytes(accounts[3].data@.subrange(64, 72))
    &&& eff.close_temp_account.account@ == accounts[3].key@
    &&& eff.close_temp_account.destination@ == accounts[4].key@
}

/// The escrow program's instruction processor.
pub struct Processor;

impl Processor {
    /// Validates an open request and describes its effects: the populated
    /// record to write and the holding account's authority handover. The
    /// account list is read only; a failing call emits nothing.
    ///
    /// `record_rent_exempt` is the runtime's rent-exemption verdict on the
    /// escrow record account's balance and size.
    pub fn process_init_escrow(
        accounts: &Vec<LedgerAccount>,
        amount: u64,
        program_id: &[u8; 32],
        record_rent_exempt: bool,
    ) -> (r: Result<InitEscrowEffect, ProgramFailure>)
        ensures
            r matches Err(e) ==> spec_init_escrow_failure(accounts@, amount, program_id@, record_rent_exempt) == Some(e),
            r matches Ok(eff) ==> spec_init_escrow_failure(accounts@, amount, program_id@, record_rent_exempt) is None
                && spec_init_effect_ok(eff, accounts@, amount, program_id@),
    {
        if accounts.len() < 1 {
            return Err(ProgramFailure::NotEnoughAccountKeys);
        }
        let initializer = &accounts[0];
        if !initializer.is_signer {
            return Err(ProgramFailure::MissingRequiredSignature);
        }
        if accounts.len() < 3 {
            return Err(ProgramFailure::NotEnoughAccountKeys);
        }
        let temp_token_account = &accounts[1];
        let token_to_receive_account = &accounts[2];
        let spl_id = token_program_id();
        if !bytes_eq(token_to_receive_account.owner.as_slice(), spl_id.as_slice()) {
            return Err(ProgramFailure::IncorrectProgramId);
        }
        if accounts.len() < 5 {
            return Err(ProgramFailure::NotEnoughAccountKeys);
        }
        let escrow_account = &accounts[3];
        if !record_rent_exempt {
            return Err(ProgramFailure::Custom(EscrowError::NotRentExempt));
        }
        let mut escrow_info = match Escrow::unpack_from_slice(escrow_account.data.as_slice()) {
            Ok(info) => info,
            Err(e) => {
                return Err(e);
            },
        };
        if escrow_info.is_initialized() {
            return Err(ProgramFailure::AccountAlreadyInitialized);
        }
        let authority = match derive_escrow_authority(program_id) {
            Some(p) => p,
            None => {
                return Err(ProgramFailure::InvalidSeeds);
            },
        };
        if accounts.len() < 6 {
            return Err(ProgramFailure::NotEnoughAccountKeys);
        }
        let token_program = &accounts[5];
        if !bytes_eq(token_program.key.as_slice(), spl_id.as_slice()) {
            return Err(ProgramFailure::IncorrectProgramId);
        }
        escrow_info.is_initialized = true;
        escrow_info.initializer_pubkey = initializer.key;
        escrow_info.temp_token_account_pubkey = temp_token_account.key;
        escrow_info.initializer_token_to_receive_account_pubkey = token_to_receive_account.key;
        escrow_info.expected_amount = amount;
        let mut record_bytes: Vec<u8> = vec![0u8; ESCROW_LEN];
        escrow_info.pack_into_slice(&mut record_bytes);
        let owner_change = SetAuthorityOp {
            account: temp_token_account.key,
            new_authority: authority.0,
            current_authority: initializer.key,
        };
        Ok(InitEscrowEffect { record_bytes, owner_change })
    }

    /// Validates a settle request against the stored record and the
    /// holding account's live state, and describes the settlement: pay-in,
    /// pay-out, and the holding account's closure, in issue order. The
    /// account list is read only; a failing call emits nothing.
    pub fn process_exchange(
        accounts: &Vec<LedgerAccount>,
        amount_expected_by_taker: u64,
        program_id: &[u8; 32],
    ) -> (r: Result<ExchangeEffect, ProgramFailure>)
        ensures
            r matches Err(e) ==> spec_exchange_failure(accounts@, amount_expected_by_taker, program_id@) == Some(e),
            r matches Ok(eff) ==> spec_exchange_failure(accounts@, amount_expected_by_taker, program_id@) is None
                && spec_exchange_effect_ok(eff, accounts@, program_id@),
    {
        if accounts.len() < 1 {
            return Err(ProgramFailure::NotEnoughAccountKeys);
        }
        let taker = &accounts[0];
        if !taker.is_signer {
            return Err(ProgramFailure::MissingRequiredSignature);
        }
        if accounts.len() < 4 {
            return Err(ProgramFailure::NotEnoughAccountKeys);
        }
        let takers_sending_token_account = &accounts[1];
        let takers_receiving_token_account = &accounts[2];
        let pdas_temp_token_account = &accounts[3];
        let temp_account_amount = match read_token_account_amount(pdas_temp_token_account.data.as_slice()) {
            Some(amount) => amount,
            None => {
                return Err(ProgramFailure::InvalidAccountData);
            },
        };
        let authority = match derive_escrow_authority(program_id) {
            Some(p) => p,
            None => {
                return Err(ProgramFailure::InvalidSeeds);
            },
        };
        if amount_expected_by_taker != temp_account_amount {
            return Err(ProgramFailure::Custom(EscrowError::ExpectedAmountMismatch));
        }
        if accounts.len() < 7 {
            return Err(ProgramFailure::NotEnoughAccountKeys);
        }
        let initializers_main_account = &accounts[4];
        let initializers_token_to_receive_account = &accounts[5];
        let escrow_account = &accounts[6];
        let escrow_info = match Escrow::unpack(escrow_account.data.as_slice()) {
            Ok(info) => info,
            Err(e) => {
                return Err(e);
            },
        };
        if !bytes_eq(
            escrow_info.temp_token_account_pubkey.as_slice(),
            pdas_temp_token_account.key.as_slice(),
        ) {
            return Err(ProgramFailure::InvalidAccountData);
        }
        if !bytes_eq(
            escrow_info.initializer_pubkey.as_slice(),
            initializers_main_account.key.as_slice(),
        ) {
            return Err(ProgramFailure::InvalidAccountData);
        }
        if !bytes_eq(
            escrow_info.initializer_token_to_receive_account_pubkey.as_slice(),
            initializers_token_to_receive_account.key.as_slice(),
        ) {
            return Err(ProgramFailure::InvalidAccountData);
        }
        if accounts.len() < 8 {
            return Err(ProgramFailure::NotEnoughAccountKeys);
        }
        let token_program = &accounts[7];
        let spl_id = token_program_id();
        if !bytes_eq(token_program.key.as_slice(), spl_id.as_slice()) {
            return Err(ProgramFailure::IncorrectProgramId);
        }
        if accounts.len() < 9 {
            return Err(ProgramFailure::NotEnoughAccountKeys);
        }
        let transfer_to_initializer = TransferOp {
            source: takers_sending_token_account.key,
            destination: initializers_token_to_receive_account.key,
            authority: taker.key,
            amount: escrow_info.expected_amount,
            signer_bump: None,
        };
        let transfer_to_taker = TransferOp {
            source: pdas_temp_token_account.key,
            destination: takers_receiving_token_account.key,
            authority: authority.0,
            amount: temp_account_amount,
            signer_bump: Some(authority.1),
        };
        let close_temp_account = CloseAccountOp {
            account: pdas_temp_token_account.key,
            destination: initializers_main_account.key,
            authority: authority.0,
            signer_bump: authority.1,
        };
        Ok(ExchangeEffect {
            authority: authority.0,
            bump: authority.1,
            transfer_to_initializer,
            transfer_to_taker,
            close_temp_account,
        })
    }

    /// Credits the escrow record account's remaining balance to the
    /// initializer's main account, zeroes the record account's balance and
    /// purges its data, so that no later transaction can revive a
    /// valid-looking record. A refund that would overflow the
    /// initializer's balance fails with `AmountOverflow` and leaves both
    /// accounts unchanged.
    pub fn close_escrow_account(
        initializers_main_account: &mut LedgerAccount,
        escrow_account: &mut LedgerAccount,
    ) -> (r: Result<(), ProgramFailure>)
        ensures
            r is Ok <==> old(initializers_main_account).lamports + old(escrow_account).lamports <= u64::MAX,
            r is Ok ==> {
                &&& final(initializers_main_account).lamports
                    == old(initializers_main_account).lamports + old(escrow_account).lamports
                &&& final(initializers_main_account).key == old(initializers_main_account).key
                &&& final(initializers_main_account).is_signer == old(initializers_main_account).is_signer
                &&& final(initializers_main_account).owner == old(initializers_main_account).owner
                &&& final(initializers_main_account).data == old(initializers_main_account).data
                &&& final(escrow_account).lamports == 0
                &&& final(escrow_account).data@ == Seq::<u8>::empty()
                &&& final(escrow_account).key == old(escrow_account).key
                &&& final(escrow_account).is_signer == old(escrow_account).is_signer
                &&& final(escrow_account).owner == old(escrow_account).owner
            },
            r is Err ==> {
                &&& r == Result::<(), ProgramFailure>::Err(ProgramFailure::Custom(EscrowError::AmountOverflow))
                &&& *final(initializers_main_account) == *old(initializers_main_account)
                &&& *final(escrow_account) == *old(escrow_account)
            },
    {
        let refund = escrow_account.lamports;
        match initializers_main_account.lamports.checked_add(refund) {
            Some(total) => {
                initializers_main_account.lamports = total;
                escrow_account.lamports = 0;
                escrow_account.data.clear();
                Ok(())
            },
            None => Err(ProgramFailure::Custom(EscrowError::AmountOverflow)),
        }
    }

    /// Decodes the payload and dispatches to the matching handler.
    ///
    /// `record_rent_exempt` is the runtime's rent-exemption verdict on the
    /// escrow record account; it is only consulted by an open call.
    pub fn process(
        program_id: &[u8; 32],
        accounts: &Vec<LedgerAccount>,
        instruction_data: &[u8],
        record_rent_exempt: bool,
    ) -> (r: Result<ProgramEffect, ProgramFailure>)
        ensures
            spec_unpack_instruction(instruction_data@) matches Err(e)
                ==> r == Result::<ProgramEffect, ProgramFailure>::Err(e),
            spec_unpack_instruction(instruction_data@) matches Ok(EscrowInstruction::InitEscrow { amount })
                ==> match r {
                    Ok(eff) => eff matches ProgramEffect::Init(ie)
                        && spec_init_escrow_failure(accounts@, amount, program_id@, record_rent_exempt) is None
                        && spec_init_effect_ok(ie, accounts@, amount, program_id@),
                    Err(e) => spec_init_escrow_failure(accounts@, amount, program_id@, record_rent_exempt) == Some(e),
                },
            spec_unpack_instruction(instruction_data@) matches Ok(EscrowInstruction::Exchange { amount })
                ==> match r {
                    Ok(eff) => eff matches ProgramEffect::Exchange(ee)
                        && spec_exchange_failure(accounts@, amount, program_id@) is None
                        && spec_exchange_effect_ok(ee, accounts@, program_id@),
                    Err(e) => spec_exchange_failure(accounts@, amount, program_id@) == Some(e),
                },
    {
        let instruction = match EscrowInstruction::unpack(instruction_data) {
            Ok(ins) => ins,
            Err(e) => {
                return Err(e);
            },
        };
        match instruction {
            EscrowInstruction::InitEscrow { amount } => {
                match Self::process_init_escrow(accounts, amount, program_id, record_rent_exempt) {
                    Ok(eff) => Ok(ProgramEffect::Init(eff)),
                    Err(e) => Err(e),
                }
            },
            EscrowInstruction::Exchange { amount } => {
                match Self::process_exchange(accounts, amount, program_id) {
                    Ok(eff) => Ok(ProgramEffect::Exchange(eff)),
                    Err(e) => Err(e),
                }
            },
        }
    }
}

/// Opening with a record account already marked initialized fails with
/// `AccountAlreadyInitialized`, whatever amount, program identity, or
/// other account contents are supplied, provided the checks that come
/// before the initialization check pass: the initializer signed, the
/// receiving account is token-program owned, and the record account is
/// rent exempt with a decodable record.
pub proof fn lemma_open_already_initialized(
    accounts: Seq<LedgerAccount>,
    amount: u64,
    program_id: Seq<u8>,
    record_rent_exempt: bool,
)
    requires
        accounts.len() >= 5,
        accounts[0].is_signer,
        accounts[2].owner@ == spec_token_program_id(),
        record_rent_exempt,
        spec_bytes_wf(accounts[3].data@),
        spec_unpack(accounts[3].data@).is_initialized,
    ensures
        spec_init_escrow_failure(accounts, amount, program_id, record_rent_exempt)
            == Some(ProgramFailure::AccountAlreadyInitialized),
{
}

/// Opening without the initializer's signature fails with
/// `MissingRequiredSignature`, whatever else is supplied. The handler
/// reads the account list only, so the failing call also leaves every
/// account, the record account included, exactly as it was.
pub proof fn lemma_open_requires_signature(
    accounts: Seq<LedgerAccount>,
    amount: u64,
    program_id: Seq<u8>,
    record_rent_exempt: bool,
)
    requires
        accounts.len() >= 1,
        !accounts[0].is_signer,
    ensures
        spec_init_escrow_failure(accounts, amount, program_id, record_rent_exempt)
            == Some(ProgramFailure::MissingRequiredSignature),
{
}

/// Settling with an amount argument that differs from the holding
/// account's live balance fails with `ExpectedAmountMismatch` — also when
/// the argument equals the record's stored expected amount, which the
/// comparison never consults.
pub proof fn lemma_settle_amount_binds_to_live_balance(
    accounts: Seq<LedgerAccount>,
    amount: u64,
    program_id: Seq<u8>,
)
    requires
        accounts.len() >= 4,
        accounts[0].is_signer,
        spec_token_account_valid(accounts[3].data@),
        spec_escrow_authority(program_id) is Some,
        amount != spec_u64_from_le_bytes(accounts[3].data@.subrange(64, 72)),
    ensures
        spec_exchange_failure(accounts, amount, program_id)
            == Some(ProgramFailure::Custom(EscrowError::ExpectedAmountMismatch)),
{
}

/// Settling with any of the three identity-checked accounts — the holding
/// account, the initializer's main account, or the initializer's
/// receiving account — differing from the identity the record stores
/// fails with `InvalidAccountData`, however valid the substituted account
/// otherwise is.
pub proof fn lemma_settle_checks_recorded_identities(
    accounts: Seq<LedgerAccount>,
    amount: u64,
    program_id: Seq<u8>,
)
    requires
        accounts.len() >= 7,
        accounts[0].is_signer,
        spec_token_account_valid(accounts[3].data@),
        spec_escrow_authority(program_id) is Some,
        amount == spec_u64_from_le_bytes(accounts[3].data@.subrange(64, 72)),
        spec_bytes_initialized(accounts[6].data@),
        spec_unpack(accounts[6].data@).temp_token_account_pubkey != accounts[3].key@
            || spec_unpack(accounts[6].data@).initializer_pubkey != accounts[4].key@
            || spec_unpack(accounts[6].data@).initializer_token_to_receive_account_pubkey
                != accounts[5].key@,
    ensures
        spec_exchange_failure(accounts, amount, program_id)
            == Some(ProgramFailure::InvalidAccountData),
{
}

} // verus!
