//! The instruction processor: the checks that an invocation has to pass, in
//! their fixed order, and the write that follows them.

use crate::account::AccountHandle;
use crate::account::Address;
use crate::error::CustomError;
use crate::error::ProgramFailure;
use crate::host::decoded_rent;
use crate::host::derive_address;
use crate::host::derived_address;
use crate::host::ends_in_marker;
use crate::host::is_rent_account;
use crate::host::read_rent;
use crate::host::rent_account_address;
use crate::host::rent_exempt;
use crate::host::rent_fits;
use crate::host::rent_is_exempt;
use crate::host::RentParams;
use crate::host::SeedError;
use crate::host::ACCOUNT_STORAGE_OVERHEAD;
use crate::payload::derivation_seed;
use crate::payload::instruction_bytes;
use crate::payload::lemma_seed_is_short;
use crate::payload::parse_failure;
use crate::payload::parse_instruction;
use crate::payload::seed_text;
use crate::payload::Instruction;
use crate::payload::PAYLOAD_LEN;
use vstd::prelude::*;
use vstd::utf8::encode_utf8;

verus! {

/// The account that the record is written to.
pub const STORAGE: usize = 0;

/// The host's rent account.
pub const RENT: usize = 1;

/// The account whose signature authorises the write.
pub const AUTHORITY: usize = 2;

/// What a storage account's data holds once `payload` has been recorded in
/// it: the payload, then what lay behind the record before.
pub open spec fn recorded(data: Seq<u8>, payload: Seq<u8>) -> Seq<u8> {
    payload + data.subrange(payload.len() as int, data.len() as int)
}

/// Writes the record of an instruction over the front of a data region.
fn write_record(data: &mut Vec<u8>, instruction: &Instruction)
    requires
        instruction_bytes(*instruction).len() == PAYLOAD_LEN,
        old(data).len() >= PAYLOAD_LEN,
    ensures
        final(data)@ == recorded(old(data)@, instruction_bytes(*instruction)),
{
    let hash = instruction.record.hash.as_str().as_bytes();
    data.set(0, instruction.hospital_id);
    data.set(1, instruction.report_id);
    let mut i: usize = 0;
    while i < 64
        invariant
            i <= 64,
            hash@.len() == 64,
            hash@ == encode_utf8(instruction.record.hash@),
            data.len() == old(data).len(),
            data.len() >= PAYLOAD_LEN,
            data@[0] == instruction.hospital_id,
            data@[1] == instruction.report_id,
            forall|k: int| 0 <= k < i ==> data@[2 + k] == hash@[k],
            forall|k: int| 2 + i <= k < data.len() ==> data@[k] == old(data)@[k],
        decreases 64 - i,
    {
        data.set(2 + i, hash[i]);
        i += 1;
    }
    assert(data@ =~= recorded(old(data)@, instruction_bytes(*instruction)));
}

/// The first check that an invocation fails, or `None` where it passes all
/// of them. The checks run in this order: the storage account's owner, the
/// rent account's address and schedule, the storage account's exemption from
/// rent, the authority's signature, the payload's form, the derived address,
/// and the room that the storage account has for a record.
pub open spec fn failure(program_id: Address, accounts: Seq<AccountHandle>, payload: Seq<u8>)
    -> Option<ProgramFailure> {
    if accounts.len() <= STORAGE {
        Some(ProgramFailure::NotEnoughAccountKeys)
    } else if accounts[STORAGE as int].owner@ != program_id@ {
        Some(ProgramFailure::Custom(CustomError::IncorrectOwner))
    } else if accounts.len() <= RENT {
        Some(ProgramFailure::NotEnoughAccountKeys)
    } else if accounts[RENT as int].address@ != rent_account_address() {
        Some(ProgramFailure::InvalidAccountData)
    } else if decoded_rent(accounts[RENT as int].data@) is None {
        Some(ProgramFailure::InvalidArgument)
    } else if !rent_fits(
        decoded_rent(accounts[RENT as int].data@)->Some_0,
        accounts[STORAGE as int].data.len(),
    ) {
        Some(ProgramFailure::ArithmeticOverflow)
    } else if !rent_exempt(
        decoded_rent(accounts[RENT as int].data@)->Some_0,
        accounts[STORAGE as int].balance,
        accounts[STORAGE as int].data.len(),
    ) {
        Some(ProgramFailure::Custom(CustomError::AccountNotRentExempt))
    } else if accounts.len() <= AUTHORITY {
        Some(ProgramFailure::NotEnoughAccountKeys)
    } else if !accounts[AUTHORITY as int].is_signer {
        Some(ProgramFailure::MissingRequiredSignature)
    } else if parse_failure(payload) is Some {
        Some(ProgramFailure::Custom(parse_failure(payload)->Some_0))
    } else if ends_in_marker(program_id@) {
        Some(ProgramFailure::IllegalOwner)
    } else if expected_address(program_id, accounts[AUTHORITY as int].address, payload)
        != accounts[STORAGE as int].address@ {
        Some(ProgramFailure::Custom(CustomError::AccountNotHashAccount))
    } else if accounts[STORAGE as int].data.len() < PAYLOAD_LEN {
        Some(ProgramFailure::AccountDataTooSmall)
    } else {
        None
    }
}

/// The address at which the report that a payload names is stored: the one
/// derived from the authority's address, the report's seed and the program's
/// identity.
pub open spec fn expected_address(program_id: Address, authority: Address, payload: Seq<u8>)
    -> Seq<u8> {
    derived_address(authority@, seed_text(payload[0], payload[1]), program_id@)
}

/// What the storage account's data holds after an invocation: the record
/// where every check passes, and what it held before where one fails.
pub open spec fn data_after(program_id: Address, accounts: Seq<AccountHandle>, payload: Seq<u8>)
    -> Seq<u8>
    recommends
        accounts.len() > STORAGE,
{
    if failure(program_id, accounts, payload) is None {
        recorded(accounts[STORAGE as int].data@, payload)
    } else {
        accounts[STORAGE as int].data@
    }
}

/// Whether `after` is `before` with `payload` recorded in its data and
/// nothing else changed.
pub open spec fn holds_record(before: AccountHandle, after: AccountHandle, payload: Seq<u8>)
    -> bool {
    &&& after.address == before.address
    &&& after.owner == before.owner
    &&& after.balance == before.balance
    &&& after.is_signer == before.is_signer
    &&& after.data@ == recorded(before.data@, payload)
}

/// Whether the rent due for `data_len` bytes of data can be computed in 64
/// bits under the given schedule.
pub fn rent_computable(params: &RentParams, data_len: usize) -> (r: bool)
    ensures
        r == rent_fits(*params, data_len),
{
    match ACCOUNT_STORAGE_OVERHEAD.checked_add(data_len as u64) {
        None => false,
        Some(bytes) => bytes.checked_mul(params.lamports_per_byte_year).is_some(),
    }
}

/// Whether `result` is what deriving the storage address of a report comes
/// to: no address for a program whose identity ends in the marker of derived
/// addresses, and [`expected_address`]'s for every other program.
pub open spec fn derives(
    authority: Address,
    hospital_id: u8,
    report_id: u8,
    program_id: Address,
    result: Result<Address, ProgramFailure>,
) -> bool {
    match result {
        Ok(address) => !ends_in_marker(program_id@) && address@ == derived_address(
            authority@,
            seed_text(hospital_id, report_id),
            program_id@,
        ),
        Err(e) => ends_in_marker(program_id@) && e == ProgramFailure::IllegalOwner,
    }
}

/// The address under which the hash of a report is stored: the one that the
/// host derives from the authority's address, the seed of the report, and
/// the program's identity. The host derives none for a program whose identity
/// ends in the marker of derived addresses; for every other program the
/// address depends on the four arguments alone.
pub fn storage_address(
    authority: &Address,
    hospital_id: u8,
    report_id: u8,
    program_id: &Address,
) -> (r: Result<Address, ProgramFailure>)
    ensures
        derives(*authority, hospital_id, report_id, *program_id, r),
{
    let seed = derivation_seed(hospital_id, report_id);
    proof {
        lemma_seed_is_short(hospital_id, report_id);
    }
    match derive_address(authority, seed.as_str(), program_id) {
        Ok(address) => Ok(address),
        Err(e) => Err(seed_failure(e)),
    }
}

/// Authorises and records one report's hash.
///
/// The accounts are taken in the order storage, rent, authority; any further
/// ones are ignored. The checks of [`failure`] run in order, and the first
/// one that fails ends the invocation with its code and with every account
/// as it was. Where all pass, the 66 bytes of the payload are written over
/// the front of the storage account's data, and nothing else changes.
pub fn process_instruction(
    program_id: &Address,
    accounts: &mut Vec<AccountHandle>,
    instruction_data: &[u8],
) -> (r: Result<(), ProgramFailure>)
    ensures
        r is Ok <==> failure(*program_id, old(accounts)@, instruction_data@) is None,
        old(accounts)@.len() > STORAGE ==> final(accounts)@[STORAGE as int].data@ == data_after(
            *program_id,
            old(accounts)@,
            instruction_data@,
        ),
        match r {
            Ok(()) => {
                &&& failure(*program_id, old(accounts)@, instruction_data@) is None
                &&& final(accounts)@.len() == old(accounts)@.len()
                &&& holds_record(
                    old(accounts)@[STORAGE as int],
                    final(accounts)@[STORAGE as int],
                    instruction_data@,
                )
                &&& forall|i: int|
                    0 < i < old(accounts)@.len() ==> final(accounts)@[i] == old(accounts)@[i]
            },
            Err(e) => {
                &&& failure(*program_id, old(accounts)@, instruction_data@) == Some(e)
                &&& *final(accounts) == *old(accounts)
            },
        },
{
    if accounts.len() <= STORAGE {
        return Err(ProgramFailure::NotEnoughAccountKeys);
    }
    if !accounts[STORAGE].owner.same_as(program_id) {
        return Err(ProgramFailure::Custom(CustomError::IncorrectOwner));
    }
    if accounts.len() <= RENT {
        return Err(ProgramFailure::NotEnoughAccountKeys);
    }
    if !is_rent_account(&accounts[RENT].address) {
        return Err(ProgramFailure::InvalidAccountData);
    }
    let rent = match read_rent(&accounts[RENT]) {
        Some(rent) => rent,
        None => {
            return Err(ProgramFailure::InvalidArgument);
        },
    };
    if !rent_computable(&rent, accounts[STORAGE].data.len()) {
        return Err(ProgramFailure::ArithmeticOverflow);
    }
    if !rent_is_exempt(&rent, accounts[STORAGE].balance, accounts[STORAGE].data.len()) {
        return Err(ProgramFailure::Custom(CustomError::AccountNotRentExempt));
    }
    if accounts.len() <= AUTHORITY {
        return Err(ProgramFailure::NotEnoughAccountKeys);
    }
    if !accounts[AUTHORITY].is_signer {
        return Err(ProgramFailure::MissingRequiredSignature);
    }
    let instruction = match parse_instruction(instruction_data) {
        Ok(instruction) => instruction,
        Err(e) => {
            return Err(ProgramFailure::Custom(e));
        },
    };
    let expected = match storage_address(
        &accounts[AUTHORITY].address,
        instruction.hospital_id,
        instruction.report_id,
        program_id,
    ) {
        Ok(expected) => expected,
        Err(e) => {
            return Err(e);
        },
    };
    if !expected.same_as(&accounts[STORAGE].address) {
        return Err(ProgramFailure::Custom(CustomError::AccountNotHashAccount));
    }
    if accounts[STORAGE].data.len() < PAYLOAD_LEN {
        return Err(ProgramFailure::AccountDataTooSmall);
    }
    let storage = &mut accounts[STORAGE];
    write_record(&mut storage.data, &instruction);
    Ok(())
}

/// The code under which a refused derivation is reported.
pub fn seed_failure(e: SeedError) -> (r: ProgramFailure)
    ensures
        r == match e {
            SeedError::MaxSeedLengthExceeded => ProgramFailure::MaxSeedLengthExceeded,
            SeedError::InvalidSeeds => ProgramFailure::InvalidSeeds,
            SeedError::IllegalOwner => ProgramFailure::IllegalOwner,
        },
{
    match e {
        SeedError::MaxSeedLengthExceeded => ProgramFailure::MaxSeedLengthExceeded,
        SeedError::InvalidSeeds => ProgramFailure::InvalidSeeds,
        SeedError::IllegalOwner => ProgramFailure::IllegalOwner,
    }
}

} // verus!
