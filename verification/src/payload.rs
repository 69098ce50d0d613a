//! The instruction payload and the derivation seed that is computed from it.
//!
//! A payload is 66 bytes: the hospital's number, the report's number, and 64
//! bytes of hash text.

use crate::account::HashAccount;
use crate::error::CustomError;
use crate::host::text_of;
use vstd::prelude::*;
use vstd::slice::slice_subrange;
use vstd::string::StringExecFns;
use vstd::utf8::encode_utf8;
use vstd::utf8::is_ascii_chars;
use vstd::utf8::is_ascii_chars_encode_utf8;
use vstd::utf8::valid_utf8;

verus! {

/// The length of a payload in bytes.
pub const PAYLOAD_LEN: usize = 66;

/// Where the hash text starts within a payload.
pub const HASH_OFFSET: usize = 2;

/// A payload taken apart.
#[derive(Debug)]
pub struct Instruction {
    pub hospital_id: u8,
    pub report_id: u8,
    pub record: HashAccount,
}

/// The character that writes the digit `d`.
pub open spec fn digit_char(d: int) -> char {
    if d == 0 {
        '0'
    } else if d == 1 {
        '1'
    } else if d == 2 {
        '2'
    } else if d == 3 {
        '3'
    } else if d == 4 {
        '4'
    } else if d == 5 {
        '5'
    } else if d == 6 {
        '6'
    } else if d == 7 {
        '7'
    } else if d == 8 {
        '8'
    } else {
        '9'
    }
}

/// `n` written in decimal, without leading zeros.
pub open spec fn decimal_text(n: nat) -> Seq<char>
    decreases n,
{
    if n < 10 {
        seq![digit_char(n as int)]
    } else {
        decimal_text(n / 10).push(digit_char((n % 10) as int))
    }
}

/// The seed for a report: both numbers in decimal with an underscore between.
pub open spec fn seed_text(hospital_id: u8, report_id: u8) -> Seq<char> {
    decimal_text(hospital_id as nat) + seq!['_'] + decimal_text(report_id as nat)
}

/// The hash text of a payload: everything after the two numbers.
pub open spec fn hash_bytes(payload: Seq<u8>) -> Seq<u8> {
    payload.subrange(HASH_OFFSET as int, payload.len() as int)
}

/// Whether a payload has the right length and holds decodable hash text.
pub open spec fn well_formed(payload: Seq<u8>) -> bool {
    payload.len() == PAYLOAD_LEN && valid_utf8(hash_bytes(payload))
}

/// What [`parse_instruction`] answers for a payload, but for the decoded
/// instruction itself.
pub open spec fn parse_failure(payload: Seq<u8>) -> Option<CustomError> {
    if payload.len() != PAYLOAD_LEN {
        Some(CustomError::IncorrectDataLength)
    } else if !valid_utf8(hash_bytes(payload)) {
        Some(CustomError::CannotParseData)
    } else {
        None
    }
}

/// The bytes that an instruction is the parse of.
pub open spec fn instruction_bytes(instruction: Instruction) -> Seq<u8> {
    seq![instruction.hospital_id, instruction.report_id] + encode_utf8(instruction.record.hash@)
}

fn digit_str(d: u8) -> (r: &'static str)
    requires
        d < 10,
    ensures
        r@ == seq![digit_char(d as int)],
{
    proof {
        reveal_strlit("0");
        reveal_strlit("1");
        reveal_strlit("2");
        reveal_strlit("3");
        reveal_strlit("4");
        reveal_strlit("5");
        reveal_strlit("6");
        reveal_strlit("7");
        reveal_strlit("8");
        reveal_strlit("9");
    }
    let r = if d == 0 {
        "0"
    } else if d == 1 {
        "1"
    } else if d == 2 {
        "2"
    } else if d == 3 {
        "3"
    } else if d == 4 {
        "4"
    } else if d == 5 {
        "5"
    } else if d == 6 {
        "6"
    } else if d == 7 {
        "7"
    } else if d == 8 {
        "8"
    } else {
        "9"
    };
    assert(r@ =~= seq![digit_char(d as int)]);
    r
}

fn push_decimal(text: &mut String, n: u8)
    ensures
        final(text)@ == old(text)@ + decimal_text(n as nat),
{
    reveal_with_fuel(decimal_text, 3);
    if n >= 100 {
        text.append(digit_str(n / 100));
    }
    if n >= 10 {
        text.append(digit_str((n / 10) % 10));
    }
    text.append(digit_str(n % 10));
    assert(text@ =~= old(text)@ + decimal_text(n as nat));
}

/// A seed is made of ASCII characters, seven at most, so it encodes to as
/// many bytes and stays under the host's limit on seeds.
pub proof fn lemma_seed_is_short(hospital_id: u8, report_id: u8)
    ensures
        3 <= seed_text(hospital_id, report_id).len() <= 7,
        is_ascii_chars(seed_text(hospital_id, report_id)),
        encode_utf8(seed_text(hospital_id, report_id)).len() == seed_text(
            hospital_id,
            report_id,
        ).len(),
{
    reveal_with_fuel(decimal_text, 3);
    is_ascii_chars_encode_utf8(seed_text(hospital_id, report_id));
}

/// Computes the seed under which a report's storage address is derived.
pub fn derivation_seed(hospital_id: u8, report_id: u8) -> (seed: String)
    ensures
        seed@ == seed_text(hospital_id, report_id),
{
    let mut seed = String::new();
    push_decimal(&mut seed, hospital_id);
    proof {
        reveal_strlit("_");
    }
    seed.append("_");
    push_decimal(&mut seed, report_id);
    assert(seed@ =~= seed_text(hospital_id, report_id));
    seed
}

/// Takes a payload apart. A payload of any length but 66 is refused with
/// `IncorrectDataLength`; one of the right length whose hash bytes are not
/// well-formed UTF-8 is refused with `CannotParseData`; every other payload
/// is accepted, and the instruction holds its two numbers and its hash text.
pub fn parse_instruction(payload: &[u8]) -> (r: Result<Instruction, CustomError>)
    ensures
        match r {
            Ok(instruction) => parse_failure(payload@) is None && instruction_bytes(instruction)
                == payload@,
            Err(e) => parse_failure(payload@) == Some(e),
        },
{
    if payload.len() != PAYLOAD_LEN {
        return Err(CustomError::IncorrectDataLength);
    }
    let hash = slice_subrange(payload, HASH_OFFSET, PAYLOAD_LEN);
    assert(hash@ == hash_bytes(payload@));
    match text_of(hash) {
        None => Err(CustomError::CannotParseData),
        Some(text) => {
            let instruction = Instruction {
                hospital_id: payload[0],
                report_id: payload[1],
                record: HashAccount { hash: text.to_owned() },
            };
            assert(instruction_bytes(instruction) =~= payload@);
            Ok(instruction)
        },
    }
}

} // verus!
