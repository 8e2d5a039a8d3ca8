//! The caller-facing error taxonomy of the pipeline.

use vstd::prelude::*;

verus! {

/// Why a message was rejected.
///
/// `Corrupt`: the bytes do not match any recognized version tag or body
/// structure. `Unsupported`: the envelope decoded but its version lies
/// outside the supported window, the body cannot be represented in canonical
/// form, or execution failed internally.
#[derive(Clone, Copy, Debug, PartialEq, Eq, Structural)]
pub enum ProcessingError {
    Corrupt,
    Unsupported,
}

} // verus!
