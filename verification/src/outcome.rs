//! Execution outcomes and their classification into caller-facing results.

use vstd::prelude::*;

use crate::error::ProcessingError;
use crate::weight::Weight;

verus! {

/// Why an execution stopped or failed inside the delegate. The pipeline
/// never interprets these causes beyond classification; they reach the
/// caller only through the trace sink.
#[derive(Clone, Copy, Debug, PartialEq, Eq, Structural)]
pub enum ExecutionError {
    /// An arithmetic bound was exceeded during execution.
    Overflow,
    /// A barrier refused the message.
    Barrier,
    /// The canonical nesting limit was exceeded during execution.
    ExceedsStackLimit,
    /// The weight budget ran out mid-execution.
    WeightLimitReached,
}

/// What the execution delegate reports for one canonical message: produced
/// exactly once per processing call.
#[derive(Clone, Copy, Debug, PartialEq, Eq, Structural)]
pub enum Outcome {
    /// Every instruction executed; `used` is the weight consumed.
    Complete { used: Weight },
    /// Execution stopped at `error` after consuming `used`; what ran stays.
    Incomplete { used: Weight, error: ExecutionError },
    /// Nothing executed at all.
    Error { error: ExecutionError },
}

/// How an internal execution failure is presented to the caller. Every
/// cause currently collapses to `Unsupported`; the table is written out
/// arm by arm so that a cause can later map to a kind of its own without
/// touching the pipeline's structure.
pub open spec fn map_execution_error_spec(error: ExecutionError) -> ProcessingError {
    match error {
        ExecutionError::Overflow => ProcessingError::Unsupported,
        ExecutionError::Barrier => ProcessingError::Unsupported,
        ExecutionError::ExceedsStackLimit => ProcessingError::Unsupported,
        ExecutionError::WeightLimitReached => ProcessingError::Unsupported,
    }
}

/// The classification table: what weight is charged and what result the
/// caller sees for each outcome. A complete execution is fully processed, an
/// incomplete one is partially processed and charged what ran, and a failed
/// one is rejected and deliberately charged nothing.
pub open spec fn classify_spec(outcome: Outcome) -> (Weight, Result<bool, ProcessingError>) {
    match outcome {
        Outcome::Complete { used } => (used, Ok(true)),
        Outcome::Incomplete { used, error } => (used, Ok(false)),
        Outcome::Error { error } => (
            Weight::spec_zero(),
            Err(map_execution_error_spec(error)),
        ),
    }
}

/// Maps an internal execution failure to the caller-facing error kind.
pub fn map_execution_error(error: ExecutionError) -> (r: ProcessingError)
    ensures
        r == map_execution_error_spec(error),
{
    match error {
        ExecutionError::Overflow => ProcessingError::Unsupported,
        ExecutionError::Barrier => ProcessingError::Unsupported,
        ExecutionError::ExceedsStackLimit => ProcessingError::Unsupported,
        ExecutionError::WeightLimitReached => ProcessingError::Unsupported,
    }
}

/// Classifies a delegate outcome into the charged weight and the
/// caller-facing processing result, exactly as [`classify_spec`] says.
pub fn classify(outcome: Outcome) -> (r: (Weight, Result<bool, ProcessingError>))
    ensures
        r == classify_spec(outcome),
        outcome matches Outcome::Complete { used } ==> r.0 == used && r.1 == Ok::<
            bool,
            ProcessingError,
        >(true),
        outcome matches Outcome::Incomplete { used, error } ==> r.0 == used && r.1 == Ok::<
            bool,
            ProcessingError,
        >(false),
        outcome matches Outcome::Error { error } ==> r.0 == Weight::spec_zero() && r.1 == Err::<
            bool,
            ProcessingError,
        >(ProcessingError::Unsupported),
{
    match outcome {
        Outcome::Complete { used } => (used, Ok(true)),
        Outcome::Incomplete { used, error: _ } => (used, Ok(false)),
        Outcome::Error { error } => (Weight::zero(), Err(map_execution_error(error))),
    }
}

/// A complete execution is charged exactly the weight the delegate used and
/// reported as fully processed.
pub proof fn lemma_complete_charges_used(used: Weight)
    ensures
        classify_spec(Outcome::Complete { used }) == (used, Ok::<bool, ProcessingError>(true)),
{
}

/// An incomplete execution is charged exactly what ran and reported as
/// partially processed; the inner error never alters the classification.
pub proof fn lemma_incomplete_charges_used(used: Weight, error: ExecutionError)
    ensures
        classify_spec(Outcome::Incomplete { used, error }) == (
            used,
            Ok::<bool, ProcessingError>(false),
        ),
{
}

/// A failed execution is charged nothing and rejected as unsupported,
/// whatever the internal cause was.
pub proof fn lemma_error_charges_nothing(error: ExecutionError)
    ensures
        classify_spec(Outcome::Error { error }) == (
            Weight::spec_zero(),
            Err::<bool, ProcessingError>(ProcessingError::Unsupported),
        ),
{
}

} // verus!
