//! The diagnostic trace side channel.
//!
//! Tracing is fire and forget: the orchestrator hands each sink one record
//! per transition it takes, and its contract never mentions the sink, so the
//! returned result cannot depend on what the sink does — including nothing.

use vstd::prelude::*;

use crate::outcome::{ExecutionError, Outcome};
use crate::weight::Weight;

verus! {

/// One diagnostic record emitted by the orchestrator.
#[derive(Clone, Copy, Debug, PartialEq, Eq, Structural)]
pub enum TraceEvent {
    /// The bytes did not decode into any versioned envelope.
    DecodeFailed,
    /// The envelope could not be normalized into the canonical form.
    ConvertFailed,
    /// The delegate executed the whole message with weight `used`.
    ExecutionComplete { used: Weight },
    /// The delegate stopped at `error` after consuming `used`.
    ExecutionIncomplete { used: Weight, error: ExecutionError },
    /// The delegate executed nothing.
    ExecutionFailed { error: ExecutionError },
}

/// Where diagnostic records go. No contract is stated: the pipeline's
/// results are pinned down without reference to the sink.
pub trait TraceSink {
    /// Takes note of one record.
    fn note(&mut self, event: TraceEvent);
}

/// A sink that discards every record.
pub struct SilentSink;

impl TraceSink for SilentSink {
    fn note(&mut self, event: TraceEvent) {
    }
}

/// A sink that keeps every record, in order, for later inspection.
pub struct RecordingSink {
    /// All records seen so far, oldest first.
    pub events: Vec<TraceEvent>,
}

impl RecordingSink {
    /// A sink that has seen nothing yet.
    pub fn new() -> (r: RecordingSink)
        ensures
            r.events@ == Seq::<TraceEvent>::empty(),
    {
        RecordingSink { events: Vec::new() }
    }
}

impl TraceSink for RecordingSink {
    fn note(&mut self, event: TraceEvent)
        ensures
            final(self).events@ == old(self).events@.push(event),
    {
        self.events.push(event);
    }
}

/// Classifies the delegate's outcome as a trace record.
pub fn trace_of_outcome(outcome: Outcome) -> (r: TraceEvent)
    ensures
        outcome matches Outcome::Complete { used } ==> r == (TraceEvent::ExecutionComplete {
            used,
        }),
        outcome matches Outcome::Incomplete { used, error } ==> r == (
        TraceEvent::ExecutionIncomplete { used, error }),
        outcome matches Outcome::Error { error } ==> r == (TraceEvent::ExecutionFailed { error }),
{
    match outcome {
        Outcome::Complete { used } => TraceEvent::ExecutionComplete { used },
        Outcome::Incomplete { used, error } => TraceEvent::ExecutionIncomplete { used, error },
        Outcome::Error { error } => TraceEvent::ExecutionFailed { error },
    }
}

} // verus!
