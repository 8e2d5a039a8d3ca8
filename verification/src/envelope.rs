//! Versioned envelopes: one explicit body type per supported wire version.
//!
//! The wire format is a self-describing tagged envelope: one version-tag
//! byte, one instruction-count byte, then the instructions encoded back to
//! back. Version 2 is recognized on the wire but lies outside the supported
//! window; versions 3 and 4 normalize into the canonical form. Version 3
//! carries 32-bit amounts which the migration widens to the 64-bit amounts
//! of the current version; teleports exist only from version 3 on.

use vstd::prelude::*;

use crate::message::Instruction;

verus! {

/// Wire tag of the legacy version 2 envelope (recognized, unsupported).
pub const VERSION_V2: u8 = 2;

/// Wire tag of the version 3 envelope (supported via migration).
pub const VERSION_V3: u8 = 3;

/// Wire tag of the current, version 4 envelope.
pub const VERSION_V4: u8 = 4;

/// Opcode of a transfer instruction.
pub const OP_TRANSFER: u8 = 0;

/// Opcode of a teleport instruction.
pub const OP_TELEPORT: u8 = 1;

/// Opcode of a clear-origin instruction.
pub const OP_CLEAR_ORIGIN: u8 = 2;

/// One instruction of the legacy version 2. Teleports did not exist yet.
#[derive(Clone, Copy, Debug, PartialEq, Eq, Structural)]
pub enum InstructionV2 {
    Transfer { amount: u32, beneficiary: u64 },
    ClearOrigin,
}

/// One instruction of version 3: amounts are still 32 bits wide.
#[derive(Clone, Copy, Debug, PartialEq, Eq, Structural)]
pub enum InstructionV3 {
    Transfer { amount: u32, beneficiary: u64 },
    Teleport { amount: u32, beneficiary: u64 },
    ClearOrigin,
}

/// A decoded envelope: the discriminated union over the recognized wire
/// versions, each variant wrapping its version-specific body. Immutable
/// once decoded.
#[derive(Clone, Debug, PartialEq, Eq)]
pub enum VersionedXcm {
    V2(Vec<InstructionV2>),
    V3(Vec<InstructionV3>),
    V4(Vec<Instruction>),
}

/// The mathematical model of a [`VersionedXcm`]: the same union over
/// instruction sequences.
pub enum EnvelopeModel {
    V2(Seq<InstructionV2>),
    V3(Seq<InstructionV3>),
    V4(Seq<Instruction>),
}

impl View for VersionedXcm {
    type V = EnvelopeModel;

    open spec fn view(&self) -> EnvelopeModel {
        match self {
            VersionedXcm::V2(body) => EnvelopeModel::V2(body@),
            VersionedXcm::V3(body) => EnvelopeModel::V3(body@),
            VersionedXcm::V4(body) => EnvelopeModel::V4(body@),
        }
    }
}

} // verus!
