use xcm_processor::envelope::{OP_CLEAR_ORIGIN, OP_TRANSFER, VERSION_V2, VERSION_V4};
use xcm_processor::error::ProcessingError;
use xcm_processor::executor::FixedOutcomeExecutor;
use xcm_processor::message::{Instruction, Xcm};
use xcm_processor::outcome::{classify, ExecutionError, Outcome};
use xcm_processor::process::ProcessXcmMessage;
use xcm_processor::trace::{RecordingSink, SilentSink, TraceEvent};
use xcm_processor::weight::{Weight, WeightMeter};

fn envelope(tag: u8, count: u8, body: &[u8]) -> Vec<u8> {
    let mut bytes = vec![tag, count];
    bytes.extend_from_slice(body);
    bytes
}

fn transfer_v4(amount: u64, beneficiary: u64) -> Vec<u8> {
    let mut body = vec![OP_TRANSFER];
    body.extend_from_slice(&amount.to_le_bytes());
    body.extend_from_slice(&beneficiary.to_le_bytes());
    body
}

fn run(
    bytes: &[u8],
    outcome: Outcome,
) -> (Result<bool, ProcessingError>, FixedOutcomeExecutor, RecordingSink) {
    let mut executor = FixedOutcomeExecutor::with_outcome(outcome);
    let mut sink = RecordingSink::new();
    let mut meter = WeightMeter::with_limit(Weight::from_parts(1000, 1000));
    let mut id = [0u8; 32];
    let result = ProcessXcmMessage::process_message(
        bytes,
        1u64,
        &mut executor,
        &mut sink,
        &mut meter,
        &mut id,
    );
    (result, executor, sink)
}

#[test]
fn empty_bytes_are_corrupt() {
    let (result, executor, sink) = run(&[], Outcome::Complete { used: Weight::zero() });
    assert_eq!(result, Err(ProcessingError::Corrupt));
    assert_eq!(executor.received, None);
    assert_eq!(sink.events, vec![TraceEvent::DecodeFailed]);
}

#[test]
fn unrecognized_tag_is_corrupt() {
    let bytes = envelope(9, 1, &[OP_CLEAR_ORIGIN]);
    let (result, executor, _) = run(&bytes, Outcome::Complete { used: Weight::zero() });
    assert_eq!(result, Err(ProcessingError::Corrupt));
    assert_eq!(executor.received, None);
}

#[test]
fn truncated_body_is_corrupt() {
    let mut bytes = envelope(VERSION_V4, 1, &transfer_v4(100, 7));
    bytes.truncate(bytes.len() - 1);
    let (result, executor, _) = run(&bytes, Outcome::Complete { used: Weight::zero() });
    assert_eq!(result, Err(ProcessingError::Corrupt));
    assert_eq!(executor.received, None);
}

#[test]
fn current_version_transfer_completes() {
    let bytes = envelope(VERSION_V4, 1, &transfer_v4(100, 7));
    let used = Weight::from_parts(5, 0);
    let (result, executor, sink) = run(&bytes, Outcome::Complete { used });
    assert_eq!(result, Ok(true));
    assert_eq!(
        executor.received,
        Some(Xcm(vec![Instruction::Transfer { amount: 100, beneficiary: 7 }]))
    );
    assert_eq!(sink.events, vec![TraceEvent::ExecutionComplete { used }]);
    let (charged, classified) = classify(Outcome::Complete { used });
    assert_eq!(charged, Weight::from_parts(5, 0));
    assert_eq!(classified, Ok(true));
}

#[test]
fn incomplete_execution_is_partial() {
    let bytes = envelope(VERSION_V4, 1, &transfer_v4(100, 7));
    let used = Weight::from_parts(3, 0);
    let outcome = Outcome::Incomplete { used, error: ExecutionError::Barrier };
    let (result, executor, sink) = run(&bytes, outcome);
    assert_eq!(result, Ok(false));
    assert_eq!(
        executor.received,
        Some(Xcm(vec![Instruction::Transfer { amount: 100, beneficiary: 7 }]))
    );
    assert_eq!(
        sink.events,
        vec![TraceEvent::ExecutionIncomplete { used, error: ExecutionError::Barrier }]
    );
    let (charged, classified) = classify(outcome);
    assert_eq!(charged, Weight::from_parts(3, 0));
    assert_eq!(classified, Ok(false));
}

#[test]
fn execution_error_is_rejected() {
    let bytes = envelope(VERSION_V4, 1, &transfer_v4(100, 7));
    let outcome = Outcome::Error { error: ExecutionError::ExceedsStackLimit };
    let (result, executor, sink) = run(&bytes, outcome);
    assert_eq!(result, Err(ProcessingError::Unsupported));
    assert!(executor.received.is_some());
    assert_eq!(
        sink.events,
        vec![TraceEvent::ExecutionFailed { error: ExecutionError::ExceedsStackLimit }]
    );
    let (charged, classified) = classify(outcome);
    assert_eq!(charged, Weight::zero());
    assert_eq!(classified, Err(ProcessingError::Unsupported));
}

#[test]
fn out_of_window_version_is_unsupported() {
    let bytes = envelope(VERSION_V2, 1, &[OP_CLEAR_ORIGIN]);
    let (result, executor, sink) = run(&bytes, Outcome::Complete { used: Weight::zero() });
    assert_eq!(result, Err(ProcessingError::Unsupported));
    assert_eq!(executor.received, None);
    assert_eq!(sink.events, vec![TraceEvent::ConvertFailed]);
}

#[test]
fn silent_sink_never_alters_the_result() {
    let bytes = envelope(VERSION_V4, 1, &transfer_v4(100, 7));
    let used = Weight::from_parts(5, 0);
    let mut executor = FixedOutcomeExecutor::with_outcome(Outcome::Complete { used });
    let mut silent = SilentSink;
    let mut meter = WeightMeter::with_limit(Weight::from_parts(1000, 1000));
    let mut id = [0u8; 32];
    let result = ProcessXcmMessage::process_message(
        &bytes,
        1u64,
        &mut executor,
        &mut silent,
        &mut meter,
        &mut id,
    );
    let (with_recording, _, _) = run(&bytes, Outcome::Complete { used });
    assert_eq!(result, Ok(true));
    assert_eq!(result, with_recording);
}

#[test]
fn meter_and_id_pass_through_untouched() {
    let bytes = envelope(VERSION_V4, 1, &transfer_v4(100, 7));
    let mut executor =
        FixedOutcomeExecutor::with_outcome(Outcome::Complete { used: Weight::from_parts(5, 0) });
    let mut sink = RecordingSink::new();
    let mut meter = WeightMeter::with_limit(Weight::from_parts(1000, 1000));
    let mut id = [9u8; 32];
    let before_meter = meter;
    let before_id = id;
    let result = ProcessXcmMessage::process_message(
        &bytes,
        1u64,
        &mut executor,
        &mut sink,
        &mut meter,
        &mut id,
    );
    assert_eq!(result, Ok(true));
    assert_eq!(meter, before_meter);
    assert_eq!(id, before_id);
}
