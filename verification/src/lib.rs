//! Records the hash of a medical report under an address that is derived from
//! the hospital and report it belongs to.

pub mod account;
pub mod error;
pub mod guarantees;
pub mod host;
pub mod payload;
pub mod processor;

pub use account::AccountHandle;
pub use account::Address;
pub use account::HashAccount;
pub use error::CustomError;
pub use error::ProgramFailure;
pub use host::RentParams;
pub use host::SeedError;
pub use payload::derivation_seed;
pub use payload::parse_instruction;
pub use payload::Instruction;
pub use processor::process_instruction;
pub use processor::rent_computable;
pub use processor::seed_failure;
pub use processor::storage_address;
