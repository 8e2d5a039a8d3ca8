//! Two-dimensional execution weight and the caller-owned weight budget.

use vstd::prelude::*;

verus! {

/// The cost of an execution: computation time and proof (storage) footprint.
#[derive(Clone, Copy, Debug, PartialEq, Eq, Structural)]
pub struct Weight {
    pub ref_time: u64,
    pub proof_size: u64,
}

impl Weight {
    /// The weight with both components zero.
    pub open spec fn spec_zero() -> Weight {
        Weight { ref_time: 0, proof_size: 0 }
    }

    /// Constructs the zero weight.
    pub fn zero() -> (r: Weight)
        ensures
            r == Weight::spec_zero(),
    {
        Weight { ref_time: 0, proof_size: 0 }
    }

    /// Constructs a weight from its two components.
    pub fn from_parts(ref_time: u64, proof_size: u64) -> (r: Weight)
        ensures
            r == (Weight { ref_time, proof_size }),
    {
        Weight { ref_time, proof_size }
    }
}

/// A caller-owned budget of remaining execution capacity.
///
/// The pipeline itself never debits this meter: the execution delegate is
/// responsible for keeping its reported consumption within the remaining
/// budget, and the caller owns all accounting.
#[derive(Clone, Copy, Debug, PartialEq, Eq, Structural)]
pub struct WeightMeter {
    pub limit: Weight,
    pub consumed: Weight,
}

impl WeightMeter {
    /// A meter that may consume up to `limit`, with nothing consumed yet.
    pub fn with_limit(limit: Weight) -> (r: WeightMeter)
        ensures
            r == (WeightMeter { limit, consumed: Weight::spec_zero() }),
    {
        WeightMeter { limit, consumed: Weight { ref_time: 0, proof_size: 0 } }
    }
}

} // verus!
