//! The canonical (current-version) message representation.

use vstd::prelude::*;

verus! {

/// The most instructions a canonical message may carry. An envelope whose
/// body is longer cannot be represented in canonical form and is rejected as
/// unsupported during normalization.
pub const MAX_INSTRUCTIONS: usize = 100;

/// A 32-byte correlation identifier threaded through for tracing; the
/// pipeline reads it only and never rewrites it.
pub type XcmHash = [u8; 32];

/// One instruction of the current version. Instruction semantics belong to
/// the execution delegate; the pipeline only carries them.
#[derive(Clone, Copy, Debug, PartialEq, Eq, Structural)]
pub enum Instruction {
    /// Move `amount` units to the account `beneficiary`.
    Transfer { amount: u64, beneficiary: u64 },
    /// Teleport `amount` units to the account `beneficiary`.
    Teleport { amount: u64, beneficiary: u64 },
    /// Clear the origin of the following instructions.
    ClearOrigin,
}

/// A canonical message: the ordered instruction sequence of the current
/// version, at most [`MAX_INSTRUCTIONS`] long.
#[derive(Clone, Debug, PartialEq, Eq)]
pub struct Xcm(pub Vec<Instruction>);

impl View for Xcm {
    type V = Seq<Instruction>;

    open spec fn view(&self) -> Seq<Instruction> {
        self.0@
    }
}

impl Xcm {
    /// How many instructions the message carries.
    pub fn len(&self) -> (n: usize)
        ensures
            n == self@.len(),
    {
        self.0.len()
    }
}

} // verus!
