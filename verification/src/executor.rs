//! The execution delegate interface and a scripted delegate for testing.

use vstd::prelude::*;

use crate::message::{Instruction, Xcm};
use crate::outcome::Outcome;

verus! {

/// The contract the pipeline consumes: an executor runs one canonical
/// message for one origin and reports exactly one outcome. The executor is
/// solely responsible for keeping its reported consumption within the
/// caller's remaining budget.
///
/// An implementation declares, as the spec function `planned_outcome`, which
/// outcome it reports from a given state for a given origin and message, and
/// `execute` must return exactly that.
pub trait ExecuteXcm<Origin>: Sized {
    /// The outcome this executor reports from state `self` for `origin` and
    /// the canonical instruction sequence `message`.
    spec fn planned_outcome(&self, origin: Origin, message: Seq<Instruction>) -> Outcome;

    /// Executes `message` for `origin` and reports the outcome.
    fn execute(&mut self, origin: Origin, message: Xcm) -> (outcome: Outcome)
        ensures
            outcome == old(self).planned_outcome(origin, message@),
    ;
}

/// A scripted delegate: reports a fixed outcome and records the canonical
/// message it was handed, so callers can observe what reached execution.
pub struct FixedOutcomeExecutor {
    /// The outcome reported for every message.
    pub outcome: Outcome,
    /// The canonical message last handed over, if any.
    pub received: Option<Xcm>,
}

impl FixedOutcomeExecutor {
    /// A scripted delegate that reports `outcome` and has seen no message.
    pub fn with_outcome(outcome: Outcome) -> (r: FixedOutcomeExecutor)
        ensures
            r.outcome == outcome,
            r.received is None,
    {
        FixedOutcomeExecutor { outcome, received: None }
    }
}

impl<Origin> ExecuteXcm<Origin> for FixedOutcomeExecutor {
    open spec fn planned_outcome(&self, origin: Origin, message: Seq<Instruction>) -> Outcome {
        self.outcome
    }

    fn execute(&mut self, origin: Origin, message: Xcm) -> (outcome: Outcome)
        ensures
            outcome == old(self).outcome,
            final(self).outcome == old(self).outcome,
            final(self).received == Some(message),
    {
        self.received = Some(message);
        self.outcome
    }
}

} // verus!
