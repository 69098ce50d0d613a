//! What holds of every invocation, stated over the processor's own model:
//! which check an invocation fails, and what the storage account's data
//! holds afterwards.

use crate::account::AccountHandle;
use crate::account::Address;
use crate::error::CustomError;
use crate::error::ProgramFailure;
use crate::host::decoded_rent;
use crate::host::ends_in_marker;
use crate::host::rent_account_address;
use crate::host::rent_exempt;
use crate::host::rent_fits;
use crate::payload::well_formed;
use crate::payload::PAYLOAD_LEN;
use crate::processor::data_after;
use crate::processor::derives;
use crate::processor::expected_address;
use crate::processor::failure;
use crate::processor::holds_record;
use crate::processor::recorded;
use crate::processor::AUTHORITY;
use crate::processor::RENT;
use crate::processor::STORAGE;
use vstd::prelude::*;

verus! {

/// The storage account is there and the program owns it.
pub open spec fn storage_owned(program_id: Address, accounts: Seq<AccountHandle>) -> bool {
    accounts.len() > STORAGE && accounts[STORAGE as int].owner@ == program_id@
}

/// The rent account is there, it is the host's and holds a schedule, and
/// under that schedule the storage account's balance exempts it from rent.
pub open spec fn rent_settled(accounts: Seq<AccountHandle>) -> bool {
    &&& accounts.len() > RENT
    &&& accounts[RENT as int].address@ == rent_account_address()
    &&& decoded_rent(accounts[RENT as int].data@) matches Some(schedule)
    &&& rent_fits(schedule, accounts[STORAGE as int].data.len())
    &&& rent_exempt(
        schedule,
        accounts[STORAGE as int].balance,
        accounts[STORAGE as int].data.len(),
    )
}

/// The authority is there and has signed.
pub open spec fn authority_signed(accounts: Seq<AccountHandle>) -> bool {
    accounts.len() > AUTHORITY && accounts[AUTHORITY as int].is_signer
}

/// A payload of any length but 66 is refused with `IncorrectDataLength`, and
/// the storage account's data stays as it was. The payload is looked at once
/// the accounts have passed their checks, so this is stated of invocations
/// whose accounts do.
pub proof fn lemma_wrong_length_refused(
    program_id: Address,
    accounts: Seq<AccountHandle>,
    payload: Seq<u8>,
)
    requires
        payload.len() != PAYLOAD_LEN,
        storage_owned(program_id, accounts),
        rent_settled(accounts),
        authority_signed(accounts),
    ensures
        failure(program_id, accounts, payload) == Some(
            ProgramFailure::Custom(CustomError::IncorrectDataLength),
        ),
        data_after(program_id, accounts, payload) == accounts[STORAGE as int].data@,
{
}

/// A storage account that the program does not own is refused with
/// `IncorrectOwner`, whatever the payload and the other accounts are, and its
/// data stays as it was.
pub proof fn lemma_foreign_owner_refused(
    program_id: Address,
    accounts: Seq<AccountHandle>,
    payload: Seq<u8>,
)
    requires
        accounts.len() > STORAGE,
        accounts[STORAGE as int].owner@ != program_id@,
    ensures
        failure(program_id, accounts, payload) == Some(
            ProgramFailure::Custom(CustomError::IncorrectOwner),
        ),
        data_after(program_id, accounts, payload) == accounts[STORAGE as int].data@,
{
}

/// An authority that has not signed is refused with
/// `MissingRequiredSignature`, whatever the payload is, and the storage
/// account's data stays as it was. The signature is looked at after the
/// owner and the rent, so this is stated of invocations that pass those.
pub proof fn lemma_unsigned_refused(
    program_id: Address,
    accounts: Seq<AccountHandle>,
    payload: Seq<u8>,
)
    requires
        storage_owned(program_id, accounts),
        rent_settled(accounts),
        accounts.len() > AUTHORITY,
        !accounts[AUTHORITY as int].is_signer,
    ensures
        failure(program_id, accounts, payload) == Some(ProgramFailure::MissingRequiredSignature),
        data_after(program_id, accounts, payload) == accounts[STORAGE as int].data@,
{
}

/// A storage account that does not lie at the address derived for the
/// payload's report is refused with `AccountNotHashAccount`, and its data
/// stays as it was. This is stated of invocations that pass the checks
/// before it, for a program that the host derives addresses for.
pub proof fn lemma_wrong_address_refused(
    program_id: Address,
    accounts: Seq<AccountHandle>,
    payload: Seq<u8>,
)
    requires
        well_formed(payload),
        storage_owned(program_id, accounts),
        rent_settled(accounts),
        authority_signed(accounts),
        !ends_in_marker(program_id@),
        accounts[STORAGE as int].address@ != expected_address(
            program_id,
            accounts[AUTHORITY as int].address,
            payload,
        ),
    ensures
        failure(program_id, accounts, payload) == Some(
            ProgramFailure::Custom(CustomError::AccountNotHashAccount),
        ),
        data_after(program_id, accounts, payload) == accounts[STORAGE as int].data@,
{
}

/// An invocation passes every check exactly when the payload is well formed,
/// the program owns the storage account, the rent is settled, the authority
/// has signed, the storage account lies at the address derived for the
/// report, and its data has room for a record.
pub proof fn lemma_accepted_iff(
    program_id: Address,
    accounts: Seq<AccountHandle>,
    payload: Seq<u8>,
)
    ensures
        failure(program_id, accounts, payload) is None <==> {
            &&& well_formed(payload)
            &&& storage_owned(program_id, accounts)
            &&& rent_settled(accounts)
            &&& authority_signed(accounts)
            &&& !ends_in_marker(program_id@)
            &&& accounts[STORAGE as int].address@ == expected_address(
                program_id,
                accounts[AUTHORITY as int].address,
                payload,
            )
            &&& accounts[STORAGE as int].data.len() >= PAYLOAD_LEN
        },
{
}

/// After an invocation that passes every check, the storage account's data
/// starts with the payload: bytes 2 to 66 are the payload's hash text, the
/// two bytes before them the payload's two numbers, and what lay behind byte
/// 66 is untouched.
pub proof fn lemma_accepted_payload_recorded(
    program_id: Address,
    accounts: Seq<AccountHandle>,
    payload: Seq<u8>,
)
    requires
        failure(program_id, accounts, payload) is None,
    ensures
        data_after(program_id, accounts, payload).len() == accounts[STORAGE as int].data@.len(),
        data_after(program_id, accounts, payload).subrange(2, 66) == payload.subrange(2, 66),
        data_after(program_id, accounts, payload).subrange(0, 66) == payload,
        data_after(program_id, accounts, payload).subrange(
            66,
            accounts[STORAGE as int].data@.len() as int,
        ) == accounts[STORAGE as int].data@.subrange(
            66,
            accounts[STORAGE as int].data@.len() as int,
        ),
{
    let after = data_after(program_id, accounts, payload);
    let before = accounts[STORAGE as int].data@;
    assert(after.subrange(2, 66) =~= payload.subrange(2, 66));
    assert(after.subrange(0, 66) =~= payload);
    assert(after.subrange(66, before.len() as int) =~= before.subrange(66, before.len() as int));
}

/// Recording the same payload again changes nothing: an invocation that
/// passed every check passes them again on the accounts that it left, and
/// leaves the storage account's data as the first one did.
pub proof fn lemma_repeat_is_idempotent(
    program_id: Address,
    before: Seq<AccountHandle>,
    after: Seq<AccountHandle>,
    payload: Seq<u8>,
)
    requires
        failure(program_id, before, payload) is None,
        after.len() == before.len(),
        holds_record(before[STORAGE as int], after[STORAGE as int], payload),
        forall|i: int| 0 < i < before.len() ==> after[i] == before[i],
    ensures
        failure(program_id, after, payload) is None,
        data_after(program_id, after, payload) == after[STORAGE as int].data@,
        data_after(program_id, after, payload) == data_after(program_id, before, payload),
{
    let first = before[STORAGE as int].data@;
    let second = after[STORAGE as int].data@;
    assert(second.len() == first.len());
    assert(after[RENT as int] == before[RENT as int]);
    assert(after[AUTHORITY as int] == before[AUTHORITY as int]);
    assert(recorded(second, payload) =~= second);
}

/// Derivation is a function of its inputs: two derivations from the same
/// authority, report and program come to the same result, be it an address
/// or a refusal.
pub proof fn lemma_derivation_deterministic(
    authority: Address,
    hospital_id: u8,
    report_id: u8,
    program_id: Address,
    first: Result<Address, ProgramFailure>,
    second: Result<Address, ProgramFailure>,
)
    requires
        derives(authority, hospital_id, report_id, program_id, first),
        derives(authority, hospital_id, report_id, program_id, second),
    ensures
        first == second,
{
    if first is Ok {
        assert(first->Ok_0.bytes@ =~= second->Ok_0.bytes@);
        assert(first->Ok_0.bytes == second->Ok_0.bytes);
    }
}

} // verus!
