//! A versioned message processing pipeline.
//!
//! Untrusted bytes are decoded into a versioned envelope, normalized into the
//! current canonical message form, handed to an execution delegate under a
//! caller-owned weight budget, and the delegate's outcome is classified into a
//! tri-state result: fully executed, partially executed, or rejected.

pub mod decode;
pub mod envelope;
pub mod error;
pub mod executor;
pub mod message;
pub mod normalize;
pub mod outcome;
pub mod process;
pub mod trace;
pub mod weight;

