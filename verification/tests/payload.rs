use hash_registry::parse_instruction;
use hash_registry::rent_computable;
use hash_registry::CustomError;
use hash_registry::RentParams;

const HASH_TEXT: &str = "2c26b46b68ffc68ff99b453c1d30413413422d706483bfa0f98a5e886266e7ae";

fn payload(hospital_id: u8, report_id: u8) -> Vec<u8> {
    let mut data = vec![hospital_id, report_id];
    data.extend_from_slice(HASH_TEXT.as_bytes());
    data
}

#[test]
fn payload_is_taken_apart() {
    let instruction = parse_instruction(&payload(17, 4)).unwrap();
    assert_eq!(instruction.hospital_id, 17);
    assert_eq!(instruction.report_id, 4);
    assert_eq!(instruction.record.hash, HASH_TEXT);
}

#[test]
fn payload_numbers_may_be_smallest_and_largest() {
    let instruction = parse_instruction(&payload(0, 255)).unwrap();
    assert_eq!(instruction.hospital_id, 0);
    assert_eq!(instruction.report_id, 255);
    let instruction = parse_instruction(&payload(255, 0)).unwrap();
    assert_eq!(instruction.hospital_id, 255);
    assert_eq!(instruction.report_id, 0);
}

#[test]
fn payload_numbers_need_not_be_text() {
    let instruction = parse_instruction(&payload(0xFF, 0x80)).unwrap();
    assert_eq!(instruction.hospital_id, 0xFF);
    assert_eq!(instruction.report_id, 0x80);
}

#[test]
fn short_and_long_payloads_are_refused() {
    assert_eq!(parse_instruction(&[]).unwrap_err(), CustomError::IncorrectDataLength);
    assert_eq!(parse_instruction(&[1, 2]).unwrap_err(), CustomError::IncorrectDataLength);
    assert_eq!(
        parse_instruction(&payload(1, 2)[..65]).unwrap_err(),
        CustomError::IncorrectDataLength
    );
    let mut long = payload(1, 2);
    long.push(b'0');
    assert_eq!(parse_instruction(&long).unwrap_err(), CustomError::IncorrectDataLength);
}

#[test]
fn length_is_checked_before_the_text() {
    let data = vec![0xFFu8; 10];
    assert_eq!(parse_instruction(&data).unwrap_err(), CustomError::IncorrectDataLength);
}

#[test]
fn undecodable_hash_is_refused() {
    let mut data = payload(1, 2);
    data[2] = 0xFF;
    assert_eq!(parse_instruction(&data).unwrap_err(), CustomError::CannotParseData);
    let mut data = payload(1, 2);
    data[65] = 0xC3;
    assert_eq!(parse_instruction(&data).unwrap_err(), CustomError::CannotParseData);
    let mut data = payload(1, 2);
    data[10] = 0x80;
    assert_eq!(parse_instruction(&data).unwrap_err(), CustomError::CannotParseData);
}

#[test]
fn hash_may_be_any_text() {
    let mut data = vec![3u8, 4u8];
    data.extend_from_slice(&[0xE2, 0x82, 0xAC]);
    data.extend_from_slice(&[b'x'; 61]);
    let instruction = parse_instruction(&data).unwrap();
    assert_eq!(instruction.record.hash.as_bytes(), &data[2..]);
    assert_eq!(instruction.record.hash.chars().count(), 62);
}

#[test]
fn rent_is_computable_while_the_product_fits() {
    let schedule = |rate: u64| RentParams {
        lamports_per_byte_year: rate,
        exemption_threshold: [0, 0, 0, 0, 0, 0, 0, 64],
        burn_percent: 50,
    };
    assert!(rent_computable(&schedule(3480), 66));
    assert!(rent_computable(&schedule(0), 66));
    assert!(rent_computable(&schedule(u64::MAX / 128), 0));
    assert!(!rent_computable(&schedule(u64::MAX / 128 + 1), 0));
    assert!(rent_computable(&schedule(u64::MAX / 194), 66));
    assert!(!rent_computable(&schedule(u64::MAX / 194 + 1), 66));
    assert!(!rent_computable(&schedule(u64::MAX), 1));
    assert!(!rent_computable(&schedule(0), usize::MAX));
}
