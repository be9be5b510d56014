//! Classification of one operation's result.
//!
//! Each dispatched operation resolves to either a numeric status code or a
//! transport-level failure. A code in `[200, 300)` counts as a success; any
//! other code and any transport failure count as failures. The distinction
//! between the two failure kinds exists for diagnostics only: both feed the
//! same failure counter.

use vstd::prelude::*;

verus! {

/// The operation itself could not complete (connection refused, reset, ...).
///
/// The harness does not interpret the underlying error; the caller keeps
/// whatever detail it needs for diagnostics.
#[derive(Clone, Copy, Debug, PartialEq, Eq, Structural)]
pub struct TransportError;

/// The classified result of one operation.
#[derive(Clone, Copy, Debug, PartialEq, Eq, Structural)]
pub enum Outcome {
    /// The operation completed with a code in `[200, 300)`.
    Success(u16),
    /// The operation completed, but with a code outside the accepted range.
    FailureStatus(u16),
    /// The operation could not complete at all.
    TransportFailure,
}

/// One operation's outcome together with its elapsed wall-clock time.
#[derive(Clone, Copy, Debug, PartialEq, Eq, Structural)]
pub struct TimedOutcome {
    /// How the operation ended.
    pub outcome: Outcome,
    /// Wall-clock time from the operation's start to its completion.
    pub elapsed_nanos: u64,
}

/// Whether a numeric status code counts as a success.
pub open spec fn code_is_success(code: u16) -> bool {
    200 <= code < 300
}

/// The outcome that classification assigns to a raw operation result.
pub open spec fn spec_classify(reply: Result<u16, TransportError>) -> Outcome {
    match reply {
        Ok(code) => {
            if code_is_success(code) {
                Outcome::Success(code)
            } else {
                Outcome::FailureStatus(code)
            }
        },
        Err(_) => Outcome::TransportFailure,
    }
}

/// Whether an outcome feeds the success counter.
pub open spec fn is_success(o: Outcome) -> bool {
    o is Success
}

/// Classifies one raw operation result.
///
/// A code in `[200, 300)` is a success, any other code is a status failure,
/// and the absence of a code is a transport failure.
pub fn classify(reply: Result<u16, TransportError>) -> (o: Outcome)
    ensures
        o == spec_classify(reply),
        is_success(o) <==> (reply matches Ok(code) && code_is_success(code)),
{
    match reply {
        Ok(code) => {
            if 200 <= code && code < 300 {
                Outcome::Success(code)
            } else {
                Outcome::FailureStatus(code)
            }
        },
        Err(_) => Outcome::TransportFailure,
    }
}

} // verus!
