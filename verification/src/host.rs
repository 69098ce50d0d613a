//! What the program asks of the ledger's own library: the rent account and
//! its schedule, seeded address derivation, and text decoding. Nothing in this
//! file is proved; each function states what the function it calls is relied
//! on to do.

use crate::account::AccountHandle;
use crate::account::Address;
use solana_program::account_info::AccountInfo;
use solana_program::pubkey::Pubkey;
use solana_program::pubkey::PubkeyError;
use solana_program::rent::Rent;
use solana_program::sysvar::Sysvar;
use vstd::prelude::*;
use vstd::string::StringSliceAdditionalSpecFns;
use vstd::utf8::valid_utf8;

verus! {

/// The rent schedule as the rent account publishes it. The exemption
/// threshold is a binary64 number of years, held here in its little-endian
/// encoding.
#[derive(Clone, Copy, Debug, PartialEq, Eq)]
pub struct RentParams {
    pub lamports_per_byte_year: u64,
    pub exemption_threshold: [u8; 8],
    pub burn_percent: u8,
}

/// Why the host refused to derive an address.
#[derive(Clone, Copy, Debug, PartialEq, Eq, Structural)]
pub enum SeedError {
    MaxSeedLengthExceeded,
    InvalidSeeds,
    IllegalOwner,
}

/// Bytes that every account occupies beside its data, as the rent schedule
/// counts them.
pub const ACCOUNT_STORAGE_OVERHEAD: u64 = 128;

/// The longest seed, in bytes, that the host derives an address from.
pub const MAX_SEED_LEN: usize = 32;

/// The address of the host's rent account.
pub open spec fn rent_account_address() -> Seq<u8> {
    seq![
        6u8, 167u8, 213u8, 23u8, 25u8, 44u8, 92u8, 81u8,
        33u8, 140u8, 201u8, 76u8, 61u8, 74u8, 241u8, 127u8,
        88u8, 218u8, 238u8, 8u8, 155u8, 161u8, 253u8, 68u8,
        227u8, 219u8, 217u8, 138u8, 0u8, 0u8, 0u8, 0u8,
    ]
}

/// The 21 bytes that end the identity of a program for which the host
/// derives no seeded address.
pub open spec fn derived_address_marker() -> Seq<u8> {
    seq![
        80u8, 114u8, 111u8, 103u8, 114u8, 97u8, 109u8,
        68u8, 101u8, 114u8, 105u8, 118u8, 101u8, 100u8,
        65u8, 100u8, 100u8, 114u8, 101u8, 115u8, 115u8,
    ]
}

/// Whether a program's identity ends in [`derived_address_marker`].
pub open spec fn ends_in_marker(owner: Seq<u8>) -> bool {
    owner.len() >= 21 && owner.subrange(owner.len() - 21, owner.len() as int)
        == derived_address_marker()
}

/// The schedule that the host reads out of the rent account's data, or `None`
/// where the data holds none.
pub uninterp spec fn decoded_rent(data: Seq<u8>) -> Option<RentParams>;

/// Whether, under the given schedule, `balance` lamports exempt an account
/// with `data_len` bytes of data from rent.
pub uninterp spec fn rent_exempt(params: RentParams, balance: u64, data_len: usize) -> bool;

/// The address that the host derives from a base address, a seed and a
/// program's identity.
pub uninterp spec fn derived_address(base: Seq<u8>, seed: Seq<char>, owner: Seq<u8>) -> Seq<u8>;

/// Whether the rent computation for an account with `data_len` bytes of data
/// stays within 64 bits.
pub open spec fn rent_fits(params: RentParams, data_len: usize) -> bool {
    (ACCOUNT_STORAGE_OVERHEAD + data_len) * params.lamports_per_byte_year <= u64::MAX
        && ACCOUNT_STORAGE_OVERHEAD + data_len <= u64::MAX
}

/// Calls `solana_program::sysvar::rent::check_id`, which compares the key
/// with the rent account's fixed address.
#[verifier::external_body]
pub(crate) fn is_rent_account(address: &Address) -> (r: bool)
    ensures
        r == (address@ == rent_account_address()),
{
    solana_program::sysvar::rent::check_id(&Pubkey::new_from_array(address.bytes))
}

/// Calls `Rent::from_account_info`, which refuses every account but the rent
/// account and otherwise decodes the schedule from the account's data. The
/// decoding looks at the data alone; its result is named, not spelled out.
#[verifier::external_body]
pub(crate) fn read_rent(account: &AccountHandle) -> (r: Option<RentParams>)
    ensures
        r == if account.address@ == rent_account_address() {
            decoded_rent(account.data@)
        } else {
            None
        },
{
    let key = Pubkey::new_from_array(account.address.bytes);
    let owner = Pubkey::new_from_array(account.owner.bytes);
    let mut lamports = account.balance;
    let mut data = account.data.clone();
    let info = AccountInfo::new(&key, account.is_signer, false, &mut lamports, &mut data, &owner, false, 0);
    match Rent::from_account_info(&info) {
        Ok(rent) => Some(RentParams {
            lamports_per_byte_year: rent.lamports_per_byte_year,
            exemption_threshold: rent.exemption_threshold.to_le_bytes(),
            burn_percent: rent.burn_percent,
        }),
        Err(_) => None,
    }
}

/// Calls `Rent::is_exempt`, which compares the balance with the minimum
/// balance that the schedule asks for the given data length. The host
/// multiplies the rate by the length plus overhead in 64 bits, so the product
/// has to fit. The answer depends on the arguments alone and is named.
#[verifier::external_body]
pub(crate) fn rent_is_exempt(params: &RentParams, balance: u64, data_len: usize) -> (r: bool)
    requires
        rent_fits(*params, data_len),
    ensures
        r == rent_exempt(*params, balance, data_len),
{
    let rent = Rent {
        lamports_per_byte_year: params.lamports_per_byte_year,
        exemption_threshold: num_traits::FromBytes::from_le_bytes(&params.exemption_threshold),
        burn_percent: params.burn_percent,
    };
    rent.is_exempt(balance, data_len)
}

/// Calls `Pubkey::create_with_seed`. It refuses a seed of more than 32 bytes,
/// then a program identity that ends in the marker of derived addresses, and
/// otherwise hashes base, seed and identity into an address, which is named.
#[verifier::external_body]
pub(crate) fn derive_address(base: &Address, seed: &str, owner: &Address) -> (r: Result<
    Address,
    SeedError,
>)
    ensures
        match r {
            Ok(address) => {
                &&& seed.spec_bytes().len() <= MAX_SEED_LEN
                &&& !ends_in_marker(owner@)
                &&& address@ == derived_address(base@, seed@, owner@)
            },
            Err(SeedError::MaxSeedLengthExceeded) => seed.spec_bytes().len() > MAX_SEED_LEN,
            Err(SeedError::IllegalOwner) => seed.spec_bytes().len() <= MAX_SEED_LEN
                && ends_in_marker(owner@),
            Err(SeedError::InvalidSeeds) => false,
        },
{
    let base_key = Pubkey::new_from_array(base.bytes);
    let owner_key = Pubkey::new_from_array(owner.bytes);
    match Pubkey::create_with_seed(&base_key, seed, &owner_key) {
        Ok(key) => Ok(Address { bytes: key.to_bytes() }),
        Err(PubkeyError::MaxSeedLengthExceeded) => Err(SeedError::MaxSeedLengthExceeded),
        Err(PubkeyError::InvalidSeeds) => Err(SeedError::InvalidSeeds),
        Err(PubkeyError::IllegalOwner) => Err(SeedError::IllegalOwner),
    }
}

/// Calls `core::str::from_utf8`, which hands the bytes back as text where
/// they are well-formed UTF-8 and fails where they are not.
#[verifier::external_body]
pub(crate) fn text_of<'a>(bytes: &'a [u8]) -> (r: Option<&'a str>)
    ensures
        r is Some <==> valid_utf8(bytes@),
        r is Some ==> r->Some_0.spec_bytes() == bytes@,
{
    core::str::from_utf8(bytes).ok()
}

} // verus!
