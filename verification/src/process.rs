//! The message processor: one deterministic pipeline per invocation.
//!
//! Each call decodes the untrusted bytes, normalizes the envelope,
//! delegates execution, and classifies the outcome — reaching exactly one
//! terminal state. A message rejected while decoding or normalizing never
//! reaches the execution delegate.

use vstd::prelude::*;

use crate::decode::{decode, decode_spec};
use crate::error::ProcessingError;
use crate::executor::ExecuteXcm;
use crate::message::XcmHash;
use crate::normalize::{normalize, normalize_spec};
use crate::outcome::{classify, classify_spec, Outcome};
use crate::trace::{trace_of_outcome, TraceEvent, TraceSink};
use crate::weight::WeightMeter;

verus! {

/// A message processor that delegates execution to an [`ExecuteXcm`]
/// implementation.
pub struct ProcessXcmMessage;

impl ProcessXcmMessage {
    /// Processes one message: decode, normalize, execute, classify.
    ///
    /// Returns `Ok(true)` when the delegate executed the whole message,
    /// `Ok(false)` when it executed part of it, and `Err` when the bytes
    /// were corrupt, the version unsupported, the body unrepresentable, or
    /// execution failed entirely. The caller's meter and correlation id are
    /// passed through untouched: the delegate alone enforces the budget,
    /// and the trace sink can never alter the result.
    pub fn process_message<Origin, Exec: ExecuteXcm<Origin>, Sink: TraceSink>(
        message: &[u8],
        origin: Origin,
        executor: &mut Exec,
        sink: &mut Sink,
        meter: &mut WeightMeter,
        id: &mut XcmHash,
    ) -> (r: Result<bool, ProcessingError>)
        ensures
            *final(meter) == *old(meter),
            final(id)@ == old(id)@,
            decode_spec(message@) is None ==> r == Err::<bool, ProcessingError>(
                ProcessingError::Corrupt,
            ) && *final(executor) == *old(executor),
            decode_spec(message@) matches Some(env) ==> (normalize_spec(env) is None ==> r
                == Err::<bool, ProcessingError>(ProcessingError::Unsupported) && *final(executor)
                == *old(executor)),
            decode_spec(message@) matches Some(env) ==> (normalize_spec(env) matches Some(
                canonical,
            ) ==> r == classify_spec(old(executor).planned_outcome(origin, canonical)).1),
            decode_spec(message@) matches Some(env) ==> (normalize_spec(env) matches Some(
                canonical,
            ) ==> (old(executor).planned_outcome(origin, canonical) matches Outcome::Complete {
                used,
            } ==> r == Ok::<bool, ProcessingError>(true))),
            decode_spec(message@) matches Some(env) ==> (normalize_spec(env) matches Some(
                canonical,
            ) ==> (old(executor).planned_outcome(origin, canonical) matches Outcome::Incomplete {
                used,
                error,
            } ==> r == Ok::<bool, ProcessingError>(false))),
            decode_spec(message@) matches Some(env) ==> (normalize_spec(env) matches Some(
                canonical,
            ) ==> (old(executor).planned_outcome(origin, canonical) matches Outcome::Error {
                error,
            } ==> r == Err::<bool, ProcessingError>(ProcessingError::Unsupported))),
    {
        let env = match decode(message) {
            Ok(env) => env,
            Err(e) => {
                sink.note(TraceEvent::DecodeFailed);
                return Err(e);
            },
        };
        let canonical = match normalize(env) {
            Ok(msg) => msg,
            Err(e) => {
                sink.note(TraceEvent::ConvertFailed);
                return Err(e);
            },
        };
        let outcome = executor.execute(origin, canonical);
        let event = trace_of_outcome(outcome);
        sink.note(event);
        // The caller owns all weight accounting: the charge is surfaced
        // through `classify` and the meter is never debited here.
        let (_charged, result) = classify(outcome);
        result
    }
}

} // verus!
