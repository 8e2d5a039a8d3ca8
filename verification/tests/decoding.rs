use xcm_processor::decode::decode;
use xcm_processor::envelope::{
    InstructionV2, InstructionV3, VersionedXcm, OP_CLEAR_ORIGIN, OP_TELEPORT, OP_TRANSFER,
    VERSION_V2, VERSION_V3, VERSION_V4,
};
use xcm_processor::error::ProcessingError;
use xcm_processor::message::Instruction;

fn envelope(tag: u8, count: u8, body: &[u8]) -> Vec<u8> {
    let mut bytes = vec![tag, count];
    bytes.extend_from_slice(body);
    bytes
}

fn instr_v4(opcode: u8, amount: u64, beneficiary: u64) -> Vec<u8> {
    let mut body = vec![opcode];
    body.extend_from_slice(&amount.to_le_bytes());
    body.extend_from_slice(&beneficiary.to_le_bytes());
    body
}

fn instr_v3(opcode: u8, amount: u32, beneficiary: u64) -> Vec<u8> {
    let mut body = vec![opcode];
    body.extend_from_slice(&amount.to_le_bytes());
    body.extend_from_slice(&beneficiary.to_le_bytes());
    body
}

#[test]
fn decodes_current_version_transfer_exactly() {
    let bytes = envelope(VERSION_V4, 1, &instr_v4(OP_TRANSFER, 0x0102030405060708, 42));
    assert_eq!(
        decode(&bytes),
        Ok(VersionedXcm::V4(vec![Instruction::Transfer {
            amount: 0x0102030405060708,
            beneficiary: 42,
        }]))
    );
}

#[test]
fn decodes_v3_teleport_and_clear_origin() {
    let mut body = instr_v3(OP_TELEPORT, 250, 11);
    body.push(OP_CLEAR_ORIGIN);
    let bytes = envelope(VERSION_V3, 2, &body);
    assert_eq!(
        decode(&bytes),
        Ok(VersionedXcm::V3(vec![
            InstructionV3::Teleport { amount: 250, beneficiary: 11 },
            InstructionV3::ClearOrigin,
        ]))
    );
}

#[test]
fn decodes_legacy_v2_structurally() {
    let bytes = envelope(VERSION_V2, 1, &instr_v3(OP_TRANSFER, 77, 3));
    assert_eq!(
        decode(&bytes),
        Ok(VersionedXcm::V2(vec![InstructionV2::Transfer { amount: 77, beneficiary: 3 }]))
    );
}

#[test]
fn teleport_opcode_is_corrupt_in_v2() {
    let bytes = envelope(VERSION_V2, 1, &instr_v3(OP_TELEPORT, 77, 3));
    assert_eq!(decode(&bytes), Err(ProcessingError::Corrupt));
}

#[test]
fn trailing_bytes_are_ignored() {
    let mut bytes = envelope(VERSION_V4, 1, &instr_v4(OP_TRANSFER, 100, 7));
    bytes.extend_from_slice(&[0xAA, 0xBB, 0xCC]);
    assert_eq!(
        decode(&bytes),
        Ok(VersionedXcm::V4(vec![Instruction::Transfer { amount: 100, beneficiary: 7 }]))
    );
}

#[test]
fn count_byte_larger_than_body_is_corrupt() {
    let bytes = envelope(VERSION_V4, 2, &instr_v4(OP_TRANSFER, 100, 7));
    assert_eq!(decode(&bytes), Err(ProcessingError::Corrupt));
}

#[test]
fn unknown_opcode_is_corrupt() {
    let bytes = envelope(VERSION_V4, 1, &[9u8]);
    assert_eq!(decode(&bytes), Err(ProcessingError::Corrupt));
}

#[test]
fn missing_count_byte_is_corrupt() {
    assert_eq!(decode(&[VERSION_V4]), Err(ProcessingError::Corrupt));
}

#[test]
fn empty_body_with_zero_count_decodes() {
    assert_eq!(decode(&[VERSION_V4, 0]), Ok(VersionedXcm::V4(vec![])));
}

#[test]
fn decoding_is_deterministic() {
    let bytes = envelope(VERSION_V4, 1, &instr_v4(OP_TELEPORT, 100, 7));
    assert_eq!(decode(&bytes), decode(&bytes));
    let corrupt = envelope(7, 1, &[OP_CLEAR_ORIGIN]);
    assert_eq!(decode(&corrupt), decode(&corrupt));
}
