//! The version normalizer: from a versioned envelope to the canonical form.
//!
//! Each supported version has its own explicit migration into the current
//! representation; nothing is coerced structurally. Version 2 lies outside
//! the supported window and fails closed. A body longer than the canonical
//! instruction limit cannot be represented and is rejected as well.

use vstd::prelude::*;

use crate::envelope::{EnvelopeModel, InstructionV3, VersionedXcm};
use crate::error::ProcessingError;
use crate::message::{Instruction, Xcm, MAX_INSTRUCTIONS};

verus! {

/// The migration of one version 3 instruction: the 32-bit amount widens to
/// the 64 bits of the current version; nothing else changes.
pub open spec fn migrate_instr_v3_spec(instr: InstructionV3) -> Instruction {
    match instr {
        InstructionV3::Transfer { amount, beneficiary } => Instruction::Transfer {
            amount: amount as u64,
            beneficiary,
        },
        InstructionV3::Teleport { amount, beneficiary } => Instruction::Teleport {
            amount: amount as u64,
            beneficiary,
        },
        InstructionV3::ClearOrigin => Instruction::ClearOrigin,
    }
}

/// What an envelope normalizes to: the canonical instruction sequence, or
/// `None` exactly when the version is outside the supported window or the
/// body exceeds the canonical instruction limit.
pub open spec fn normalize_spec(env: EnvelopeModel) -> Option<Seq<Instruction>> {
    match env {
        EnvelopeModel::V2(_) => None,
        EnvelopeModel::V3(body) => if body.len() <= MAX_INSTRUCTIONS {
            Some(body.map_values(|instr: InstructionV3| migrate_instr_v3_spec(instr)))
        } else {
            None
        },
        EnvelopeModel::V4(body) => if body.len() <= MAX_INSTRUCTIONS {
            Some(body)
        } else {
            None
        },
    }
}

/// Migrates one version 3 instruction into the current version.
pub fn migrate_instr_v3(instr: &InstructionV3) -> (r: Instruction)
    ensures
        r == migrate_instr_v3_spec(*instr),
{
    match instr {
        InstructionV3::Transfer { amount, beneficiary } => Instruction::Transfer {
            amount: *amount as u64,
            beneficiary: *beneficiary,
        },
        InstructionV3::Teleport { amount, beneficiary } => Instruction::Teleport {
            amount: *amount as u64,
            beneficiary: *beneficiary,
        },
        InstructionV3::ClearOrigin => Instruction::ClearOrigin,
    }
}

/// Migrates a whole version 3 body into the current version, instruction by
/// instruction, keeping the order.
pub fn migrate_body_v3(body: &Vec<InstructionV3>) -> (r: Vec<Instruction>)
    ensures
        r@ == body@.map_values(|instr: InstructionV3| migrate_instr_v3_spec(instr)),
{
    let mut out: Vec<Instruction> = Vec::new();
    let mut i: usize = 0;
    while i < body.len()
        invariant
            i <= body@.len(),
            out@.len() == i,
            forall|j: int| 0 <= j < i ==> out@[j] == migrate_instr_v3_spec(body@[j]),
        decreases body@.len() - i,
    {
        let instr = migrate_instr_v3(&body[i]);
        out.push(instr);
        i = i + 1;
    }
    proof {
        assert(out@ =~= body@.map_values(|instr: InstructionV3| migrate_instr_v3_spec(instr)));
    }
    out
}

/// Normalizes a versioned envelope into the canonical message.
///
/// Total over the supported window: an envelope of version 3 or 4 whose body
/// is within the canonical instruction limit always normalizes, and the
/// result is exactly what [`normalize_spec`] says of it. Fails with
/// [`ProcessingError::Unsupported`] exactly when the version lies outside
/// the window or the body exceeds the limit.
pub fn normalize(env: VersionedXcm) -> (r: Result<Xcm, ProcessingError>)
    ensures
        r matches Ok(msg) ==> normalize_spec(env@) == Some(msg@),
        r is Err ==> normalize_spec(env@) is None && r == Err::<Xcm, ProcessingError>(
            ProcessingError::Unsupported,
        ),
{
    match env {
        VersionedXcm::V2(_) => Err(ProcessingError::Unsupported),
        VersionedXcm::V3(body) => {
            if body.len() <= MAX_INSTRUCTIONS {
                Ok(Xcm(migrate_body_v3(&body)))
            } else {
                Err(ProcessingError::Unsupported)
            }
        },
        VersionedXcm::V4(body) => {
            if body.len() <= MAX_INSTRUCTIONS {
                Ok(Xcm(body))
            } else {
                Err(ProcessingError::Unsupported)
            }
        },
    }
}

/// An envelope whose version lies outside the supported window never
/// normalizes, whatever its body holds: the pipeline fails closed.
pub proof fn lemma_out_of_window_unsupported(env: EnvelopeModel)
    requires
        env is V2,
    ensures
        normalize_spec(env) is None,
{
}

} // verus!
