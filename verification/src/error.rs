//! The ways in which an operation of this library can fail.

use vstd::prelude::*;

verus! {

/// Why an operation failed.
#[derive(Clone, Debug, PartialEq, Eq)]
pub enum EvmError {
    /// The interface document does not have the expected shape.
    MalformedInterface,
    /// The interface declares no function of the requested name.
    UnknownFunction,
    /// The text is not a 160-bit address in hexadecimal.
    InvalidAddress,
    /// Execution ended in a revert; the bytes are what it returned.
    RevertedCall(Vec<u8>),
    /// Execution halted; the text names the reason.
    HaltedCall(String),
    /// The interpreter answered with a shape that does not fit the request:
    /// a call's output where a created contract was expected, or the reverse.
    UnexpectedOutcome,
    /// The interpreter refused the transaction before running it; the text
    /// says why.
    BackendFailure(String),
}

} // verus!
