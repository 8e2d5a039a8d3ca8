//! The envelope decoder: from untrusted bytes to a versioned envelope.
//!
//! The wire format is: one version-tag byte, one instruction-count byte,
//! then the instructions back to back. A transfer or teleport instruction is
//! its opcode byte, the amount (little endian; 4 bytes in versions 2 and 3,
//! 8 bytes in version 4) and the 8-byte little-endian beneficiary; a
//! clear-origin instruction is its opcode byte alone. Bytes trailing the
//! last instruction are ignored. Anything else is rejected as corrupt.
//! Decoding is a pure function of the input and never consumes budget.

use vstd::prelude::*;

use vstd::bytes::{spec_u32_from_le_bytes, spec_u64_from_le_bytes, u32_from_le_bytes,
    u64_from_le_bytes};
use vstd::slice::{slice_index_get, slice_subrange};

use crate::envelope::{EnvelopeModel, InstructionV2, InstructionV3, VersionedXcm, OP_CLEAR_ORIGIN,
    OP_TELEPORT, OP_TRANSFER, VERSION_V2, VERSION_V3, VERSION_V4};
use crate::error::ProcessingError;
use crate::message::Instruction;

verus! {

/// What one version 2 instruction starting at `pos` parses to, and the
/// position just past it; `None` when the bytes there are malformed.
pub open spec fn parse_instr_v2(bytes: Seq<u8>, pos: int) -> Option<(InstructionV2, int)> {
    if 0 <= pos < bytes.len() {
        let op = bytes[pos];
        if op == OP_TRANSFER {
            if pos + 13 <= bytes.len() {
                Some((InstructionV2::Transfer {
                    amount: spec_u32_from_le_bytes(bytes.subrange(pos + 1, pos + 5)),
                    beneficiary: spec_u64_from_le_bytes(bytes.subrange(pos + 5, pos + 13)),
                }, pos + 13))
            } else {
                None
            }
        } else if op == OP_CLEAR_ORIGIN {
            Some((InstructionV2::ClearOrigin, pos + 1))
        } else {
            None
        }
    } else {
        None
    }
}

/// What `n` consecutive version 2 instructions starting at `pos` parse to.
pub open spec fn parse_instrs_v2(bytes: Seq<u8>, pos: int, n: nat) -> Option<
    (Seq<InstructionV2>, int),
>
    decreases n,
{
    if n == 0 {
        Some((Seq::empty(), pos))
    } else {
        match parse_instr_v2(bytes, pos) {
            Some((instr, next)) => match parse_instrs_v2(bytes, next, (n - 1) as nat) {
                Some((rest, end)) => Some((seq![instr].add(rest), end)),
                None => None,
            },
            None => None,
        }
    }
}

/// What one version 3 instruction starting at `pos` parses to.
pub open spec fn parse_instr_v3(bytes: Seq<u8>, pos: int) -> Option<(InstructionV3, int)> {
    if 0 <= pos < bytes.len() {
        let op = bytes[pos];
        if op == OP_TRANSFER || op == OP_TELEPORT {
            if pos + 13 <= bytes.len() {
                let amount = spec_u32_from_le_bytes(bytes.subrange(pos + 1, pos + 5));
                let beneficiary = spec_u64_from_le_bytes(bytes.subrange(pos + 5, pos + 13));
                if op == OP_TRANSFER {
                    Some((InstructionV3::Transfer { amount, beneficiary }, pos + 13))
                } else {
                    Some((InstructionV3::Teleport { amount, beneficiary }, pos + 13))
                }
            } else {
                None
            }
        } else if op == OP_CLEAR_ORIGIN {
            Some((InstructionV3::ClearOrigin, pos + 1))
        } else {
            None
        }
    } else {
        None
    }
}

/// What `n` consecutive version 3 instructions starting at `pos` parse to.
pub open spec fn parse_instrs_v3(bytes: Seq<u8>, pos: int, n: nat) -> Option<
    (Seq<InstructionV3>, int),
>
    decreases n,
{
    if n == 0 {
        Some((Seq::empty(), pos))
    } else {
        match parse_instr_v3(bytes, pos) {
            Some((instr, next)) => match parse_instrs_v3(bytes, next, (n - 1) as nat) {
                Some((rest, end)) => Some((seq![instr].add(rest), end)),
                None => None,
            },
            None => None,
        }
    }
}

/// What one current-version instruction starting at `pos` parses to.
pub open spec fn parse_instr_v4(bytes: Seq<u8>, pos: int) -> Option<(Instruction, int)> {
    if 0 <= pos < bytes.len() {
        let op = bytes[pos];
        if op == OP_TRANSFER || op == OP_TELEPORT {
            if pos + 17 <= bytes.len() {
                let amount = spec_u64_from_le_bytes(bytes.subrange(pos + 1, pos + 9));
                let beneficiary = spec_u64_from_le_bytes(bytes.subrange(pos + 9, pos + 17));
                if op == OP_TRANSFER {
                    Some((Instruction::Transfer { amount, beneficiary }, pos + 17))
                } else {
                    Some((Instruction::Teleport { amount, beneficiary }, pos + 17))
                }
            } else {
                None
            }
        } else if op == OP_CLEAR_ORIGIN {
            Some((Instruction::ClearOrigin, pos + 1))
        } else {
            None
        }
    } else {
        None
    }
}

/// What `n` consecutive current-version instructions starting at `pos`
/// parse to.
pub open spec fn parse_instrs_v4(bytes: Seq<u8>, pos: int, n: nat) -> Option<
    (Seq<Instruction>, int),
>
    decreases n,
{
    if n == 0 {
        Some((Seq::empty(), pos))
    } else {
        match parse_instr_v4(bytes, pos) {
            Some((instr, next)) => match parse_instrs_v4(bytes, next, (n - 1) as nat) {
                Some((rest, end)) => Some((seq![instr].add(rest), end)),
                None => None,
            },
            None => None,
        }
    }
}

/// What a whole buffer decodes to: the envelope whose version tag is the
/// first byte and whose body is the instruction sequence announced by the
/// count byte; `None` exactly when the buffer is corrupt.
pub open spec fn decode_spec(bytes: Seq<u8>) -> Option<EnvelopeModel> {
    if bytes.len() < 2 {
        None
    } else {
        let tag = bytes[0];
        let n = bytes[1] as nat;
        if tag == VERSION_V2 {
            match parse_instrs_v2(bytes, 2, n) {
                Some((body, _end)) => Some(EnvelopeModel::V2(body)),
                None => None,
            }
        } else if tag == VERSION_V3 {
            match parse_instrs_v3(bytes, 2, n) {
                Some((body, _end)) => Some(EnvelopeModel::V3(body)),
                None => None,
            }
        } else if tag == VERSION_V4 {
            match parse_instrs_v4(bytes, 2, n) {
                Some((body, _end)) => Some(EnvelopeModel::V4(body)),
                None => None,
            }
        } else {
            None
        }
    }
}

/// Decodes one version 2 instruction at `pos`.
fn decode_instr_v2(bytes: &[u8], pos: usize) -> (r: Result<(InstructionV2, usize), ProcessingError>)
    ensures
        r matches Ok(p) ==> parse_instr_v2(bytes@, pos as int) == Some((p.0, p.1 as int))
            && pos < p.1 <= bytes@.len(),
        r is Err ==> parse_instr_v2(bytes@, pos as int) is None && r == Err::<
            (InstructionV2, usize),
            ProcessingError,
        >(ProcessingError::Corrupt),
{
    let len = bytes.len();
    if pos >= len {
        return Err(ProcessingError::Corrupt);
    }
    let op = *slice_index_get(bytes, pos);
    if op == OP_TRANSFER {
        if len - pos >= 13 {
            let amount = u32_from_le_bytes(slice_subrange(bytes, pos + 1, pos + 5));
            let beneficiary = u64_from_le_bytes(slice_subrange(bytes, pos + 5, pos + 13));
            Ok((InstructionV2::Transfer { amount, beneficiary }, pos + 13))
        } else {
            Err(ProcessingError::Corrupt)
        }
    } else if op == OP_CLEAR_ORIGIN {
        Ok((InstructionV2::ClearOrigin, pos + 1))
    } else {
        Err(ProcessingError::Corrupt)
    }
}

/// Decodes `n` consecutive version 2 instructions starting at `pos`.
fn decode_instrs_v2(bytes: &[u8], pos: usize, n: usize) -> (r: Result<
    (Vec<InstructionV2>, usize),
    ProcessingError,
>)
    requires
        pos <= bytes@.len(),
    ensures
        r matches Ok(p) ==> parse_instrs_v2(bytes@, pos as int, n as nat) == Some(
            (p.0@, p.1 as int),
        ) && p.1 <= bytes@.len(),
        r is Err ==> parse_instrs_v2(bytes@, pos as int, n as nat) is None && r == Err::<
            (Vec<InstructionV2>, usize),
            ProcessingError,
        >(ProcessingError::Corrupt),
    decreases n,
{
    if n == 0 {
        let body: Vec<InstructionV2> = Vec::new();
        assert(body@ =~= Seq::<InstructionV2>::empty());
        Ok((body, pos))
    } else {
        match decode_instr_v2(bytes, pos) {
            Ok((instr, next)) => match decode_instrs_v2(bytes, next, n - 1) {
                Ok((mut rest, end)) => {
                    let ghost tail = rest@;
                    rest.insert(0, instr);
                    proof {
                        assert(rest@ =~= seq![instr].add(tail));
                    }
                    Ok((rest, end))
                },
                Err(e) => Err(e),
            },
            Err(e) => Err(e),
        }
    }
}

/// Decodes one version 3 instruction at `pos`.
fn decode_instr_v3(bytes: &[u8], pos: usize) -> (r: Result<(InstructionV3, usize), ProcessingError>)
    ensures
        r matches Ok(p) ==> parse_instr_v3(bytes@, pos as int) == Some((p.0, p.1 as int))
            && pos < p.1 <= bytes@.len(),
        r is Err ==> parse_instr_v3(bytes@, pos as int) is None && r == Err::<
            (InstructionV3, usize),
            ProcessingError,
        >(ProcessingError::Corrupt),
{
    let len = bytes.len();
    if pos >= len {
        return Err(ProcessingError::Corrupt);
    }
    let op = *slice_index_get(bytes, pos);
    if op == OP_TRANSFER || op == OP_TELEPORT {
        if len - pos >= 13 {
            let amount = u32_from_le_bytes(slice_subrange(bytes, pos + 1, pos + 5));
            let beneficiary = u64_from_le_bytes(slice_subrange(bytes, pos + 5, pos + 13));
            if op == OP_TRANSFER {
                Ok((InstructionV3::Transfer { amount, beneficiary }, pos + 13))
            } else {
                Ok((InstructionV3::Teleport { amount, beneficiary }, pos + 13))
            }
        } else {
            Err(ProcessingError::Corrupt)
        }
    } else if op == OP_CLEAR_ORIGIN {
        Ok((InstructionV3::ClearOrigin, pos + 1))
    } else {
        Err(ProcessingError::Corrupt)
    }
}

/// Decodes `n` consecutive version 3 instructions starting at `pos`.
fn decode_instrs_v3(bytes: &[u8], pos: usize, n: usize) -> (r: Result<
    (Vec<InstructionV3>, usize),
    ProcessingError,
>)
    requires
        pos <= bytes@.len(),
    ensures
        r matches Ok(p) ==> parse_instrs_v3(bytes@, pos as int, n as nat) == Some(
            (p.0@, p.1 as int),
        ) && p.1 <= bytes@.len(),
        r is Err ==> parse_instrs_v3(bytes@, pos as int, n as nat) is None && r == Err::<
            (Vec<InstructionV3>, usize),
            ProcessingError,
        >(ProcessingError::Corrupt),
    decreases n,
{
    if n == 0 {
        let body: Vec<InstructionV3> = Vec::new();
        assert(body@ =~= Seq::<InstructionV3>::empty());
        Ok((body, pos))
    } else {
        match decode_instr_v3(bytes, pos) {
            Ok((instr, next)) => match decode_instrs_v3(bytes, next, n - 1) {
                Ok((mut rest, end)) => {
                    let ghost tail = rest@;
                    rest.insert(0, instr);
                    proof {
                        assert(rest@ =~= seq![instr].add(tail));
                    }
                    Ok((rest, end))
                },
                Err(e) => Err(e),
            },
            Err(e) => Err(e),
        }
    }
}

/// Decodes one current-version instruction at `pos`.
fn decode_instr_v4(bytes: &[u8], pos: usize) -> (r: Result<(Instruction, usize), ProcessingError>)
    ensures
        r matches Ok(p) ==> parse_instr_v4(bytes@, pos as int) == Some((p.0, p.1 as int))
            && pos < p.1 <= bytes@.len(),
        r is Err ==> parse_instr_v4(bytes@, pos as int) is None && r == Err::<
            (Instruction, usize),
            ProcessingError,
        >(ProcessingError::Corrupt),
{
    let len = bytes.len();
    if pos >= len {
        return Err(ProcessingError::Corrupt);
    }
    let op = *slice_index_get(bytes, pos);
    if op == OP_TRANSFER || op == OP_TELEPORT {
        if len - pos >= 17 {
            let amount = u64_from_le_bytes(slice_subrange(bytes, pos + 1, pos + 9));
            let beneficiary = u64_from_le_bytes(slice_subrange(bytes, pos + 9, pos + 17));
            if op == OP_TRANSFER {
                Ok((Instruction::Transfer { amount, beneficiary }, pos + 17))
            } else {
                Ok((Instruction::Teleport { amount, beneficiary }, pos + 17))
            }
        } else {
            Err(ProcessingError::Corrupt)
        }
    } else if op == OP_CLEAR_ORIGIN {
        Ok((Instruction::ClearOrigin, pos + 1))
    } else {
        Err(ProcessingError::Corrupt)
    }
}

/// Decodes `n` consecutive current-version instructions starting at `pos`.
fn decode_instrs_v4(bytes: &[u8], pos: usize, n: usize) -> (r: Result<
    (Vec<Instruction>, usize),
    ProcessingError,
>)
    requires
        pos <= bytes@.len(),
    ensures
        r matches Ok(p) ==> parse_instrs_v4(bytes@, pos as int, n as nat) == Some(
            (p.0@, p.1 as int),
        ) && p.1 <= bytes@.len(),
        r is Err ==> parse_instrs_v4(bytes@, pos as int, n as nat) is None && r == Err::<
            (Vec<Instruction>, usize),
            ProcessingError,
        >(ProcessingError::Corrupt),
    decreases n,
{
    if n == 0 {
        let body: Vec<Instruction> = Vec::new();
        assert(body@ =~= Seq::<Instruction>::empty());
        Ok((body, pos))
    } else {
        match decode_instr_v4(bytes, pos) {
            Ok((instr, next)) => match decode_instrs_v4(bytes, next, n - 1) {
                Ok((mut rest, end)) => {
                    let ghost tail = rest@;
                    rest.insert(0, instr);
                    proof {
                        assert(rest@ =~= seq![instr].add(tail));
                    }
                    Ok((rest, end))
                },
                Err(e) => Err(e),
            },
            Err(e) => Err(e),
        }
    }
}

/// Decodes untrusted bytes into a versioned envelope.
///
/// Pure in its input: the result is exactly what [`decode_spec`] says of the
/// bytes, so identical inputs always decode identically. Fails with
/// [`ProcessingError::Corrupt`] exactly when the bytes match no recognized
/// version tag or body structure.
pub fn decode(message: &[u8]) -> (r: Result<VersionedXcm, ProcessingError>)
    ensures
        r matches Ok(env) ==> decode_spec(message@) == Some(env@),
        r is Err ==> decode_spec(message@) is None && r == Err::<
            VersionedXcm,
            ProcessingError,
        >(ProcessingError::Corrupt),
{
    if message.len() < 2 {
        return Err(ProcessingError::Corrupt);
    }
    let tag = *slice_index_get(message, 0);
    let n = *slice_index_get(message, 1) as usize;
    if tag == VERSION_V2 {
        match decode_instrs_v2(message, 2, n) {
            Ok((body, _end)) => Ok(VersionedXcm::V2(body)),
            Err(e) => Err(e),
        }
    } else if tag == VERSION_V3 {
        match decode_instrs_v3(message, 2, n) {
            Ok((body, _end)) => Ok(VersionedXcm::V3(body)),
            Err(e) => Err(e),
        }
    } else if tag == VERSION_V4 {
        match decode_instrs_v4(message, 2, n) {
            Ok((body, _end)) => Ok(VersionedXcm::V4(body)),
            Err(e) => Err(e),
        }
    } else {
        Err(ProcessingError::Corrupt)
    }
}

/// Decoding is deterministic: equal byte sequences decode to equal results.
pub proof fn lemma_decode_deterministic(bytes1: Seq<u8>, bytes2: Seq<u8>)
    requires
        bytes1 =~= bytes2,
    ensures
        decode_spec(bytes1) == decode_spec(bytes2),
{
    assert(bytes1 == bytes2);
}

/// A buffer that is empty or starts with an unrecognized version tag never
/// decodes: the pipeline rejects it as corrupt.
pub proof fn lemma_unrecognized_tag_corrupt(bytes: Seq<u8>)
    requires
        bytes.len() == 0 || (bytes[0] != VERSION_V2 && bytes[0] != VERSION_V3 && bytes[0]
            != VERSION_V4),
    ensures
        decode_spec(bytes) is None,
{
}

} // verus!
