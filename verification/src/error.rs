//! Failure codes of the instruction processor.

use vstd::prelude::*;

verus! {

/// Failures that belong to this program alone. The host carries them as a
/// numbered custom code, see [`CustomError::code`].
#[derive(Clone, Copy, Debug, PartialEq, Eq, Structural)]
pub enum CustomError {
    /// The storage account is not owned by the program.
    IncorrectOwner,
    /// The storage account's balance does not exempt it from rent.
    AccountNotRentExempt,
    /// The storage account's address is not the one derived for the report.
    AccountNotHashAccount,
    /// The instruction payload is not exactly 66 bytes long.
    IncorrectDataLength,
    /// The hash bytes of the payload are not valid text.
    CannotParseData,
}

impl CustomError {
    /// The number under which the host reports this failure.
    pub open spec fn spec_code(self) -> u32 {
        match self {
            CustomError::IncorrectOwner => 0,
            CustomError::AccountNotRentExempt => 1,
            CustomError::AccountNotHashAccount => 2,
            CustomError::IncorrectDataLength => 3,
            CustomError::CannotParseData => 4,
        }
    }

    /// The failure that the host reports under `code`, if there is one.
    pub open spec fn spec_from_code(code: u32) -> Option<CustomError> {
        if code == 0 {
            Some(CustomError::IncorrectOwner)
        } else if code == 1 {
            Some(CustomError::AccountNotRentExempt)
        } else if code == 2 {
            Some(CustomError::AccountNotHashAccount)
        } else if code == 3 {
            Some(CustomError::IncorrectDataLength)
        } else if code == 4 {
            Some(CustomError::CannotParseData)
        } else {
            None
        }
    }

    /// The number under which the host reports this failure: the variant's
    /// position in the declaration, counted from zero.
    pub fn code(&self) -> (r: u32)
        ensures
            r == self.spec_code(),
    {
        match self {
            CustomError::IncorrectOwner => 0,
            CustomError::AccountNotRentExempt => 1,
            CustomError::AccountNotHashAccount => 2,
            CustomError::IncorrectDataLength => 3,
            CustomError::CannotParseData => 4,
        }
    }

    /// Reads a failure back from its number.
    pub fn from_code(code: u32) -> (r: Option<CustomError>)
        ensures
            r == CustomError::spec_from_code(code),
    {
        if code == 0 {
            Some(CustomError::IncorrectOwner)
        } else if code == 1 {
            Some(CustomError::AccountNotRentExempt)
        } else if code == 2 {
            Some(CustomError::AccountNotHashAccount)
        } else if code == 3 {
            Some(CustomError::IncorrectDataLength)
        } else if code == 4 {
            Some(CustomError::CannotParseData)
        } else {
            None
        }
    }

    /// A short description of the failure.
    pub fn message(&self) -> (r: &'static str)
        ensures
            r@ == self.spec_message(),
    {
        match self {
            CustomError::IncorrectOwner => "Incorrect Owner",
            CustomError::AccountNotRentExempt => "Account Not Rent Exempt",
            CustomError::AccountNotHashAccount => "Account Not Hash Account",
            CustomError::IncorrectDataLength => "Incorrect Data Length",
            CustomError::CannotParseData => "Cannot Parse Data",
        }
    }

    /// The text that [`CustomError::message`] returns.
    pub open spec fn spec_message(self) -> Seq<char> {
        match self {
            CustomError::IncorrectOwner => "Incorrect Owner"@,
            CustomError::AccountNotRentExempt => "Account Not Rent Exempt"@,
            CustomError::AccountNotHashAccount => "Account Not Hash Account"@,
            CustomError::IncorrectDataLength => "Incorrect Data Length"@,
            CustomError::CannotParseData => "Cannot Parse Data"@,
        }
    }

    /// The name of this family of failures, as the host's decoder shows it.
    pub fn type_of() -> (r: &'static str)
        ensures
            r@ == "Custom Error"@,
    {
        "Custom Error"
    }
}

/// Every failure that processing an instruction can end in: the program's own
/// failures and the ones that the host defines.
#[derive(Clone, Copy, Debug, PartialEq, Eq, Structural)]
pub enum ProgramFailure {
    /// One of the program's own failures.
    Custom(CustomError),
    /// An account that the host should have supplied carries unusable data.
    InvalidArgument,
    /// The rent account is not the host's rent account.
    InvalidAccountData,
    /// The storage account cannot hold a record.
    AccountDataTooSmall,
    /// The authority did not sign the transaction.
    MissingRequiredSignature,
    /// Fewer accounts were supplied than the instruction consumes.
    NotEnoughAccountKeys,
    /// The derivation seed is longer than the host accepts.
    MaxSeedLengthExceeded,
    /// The seeds do not give a usable address.
    InvalidSeeds,
    /// The program's identity is one that no address may be derived for.
    IllegalOwner,
    /// The rent due for the storage account does not fit in 64 bits.
    ArithmeticOverflow,
}

/// Code and number agree in both directions: reading back the number of a
/// failure gives that failure, and a number that reads back as a failure is
/// that failure's number.
pub proof fn lemma_code_round_trip(e: CustomError, code: u32)
    ensures
        CustomError::spec_from_code(e.spec_code()) == Some(e),
        CustomError::spec_from_code(code) == Some(e) ==> code == e.spec_code(),
        e.spec_code() <= 4,
{
}

} // verus!
