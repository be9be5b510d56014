//! Run configuration and pre-run failure conditions.
//!
//! A run is configured once — target address, request count, concurrency
//! limit, auxiliary secret — and the configuration stays immutable for the
//! whole run. Both counts must be positive; a configuration that violates
//! this aborts before any run starts.

use vstd::prelude::*;

verus! {

/// A condition that aborts the whole program before any run starts.
///
/// Per-operation failures are never of this kind: they are absorbed into
/// the run's statistics.
#[derive(Clone, Copy, Debug, PartialEq, Eq, Structural)]
pub enum StartupError {
    /// The configured total request count was zero.
    ZeroTotalRequests,
    /// The configured concurrency limit was zero.
    ZeroConcurrency,
    /// The pre-run health check could not reach the target.
    TargetUnreachable,
}

/// The immutable configuration of one run: where to send operations, how
/// many to send, how many may be in flight at once, and the credential the
/// operation factory needs.
pub struct RunConfig {
    /// Address of the system under test. Opaque to the harness.
    pub base_target: String,
    /// How many operations one run dispatches. Always positive.
    pub total_requests: usize,
    /// How many operations may be in flight at once. Always positive.
    pub concurrency_limit: usize,
    /// Credential handed to the operation factory. Opaque to the harness.
    pub auxiliary_secret: String,
}

impl RunConfig {
    /// Both counts of a well-formed configuration are positive.
    pub open spec fn inv(&self) -> bool {
        &&& self.total_requests > 0
        &&& self.concurrency_limit > 0
    }

    /// Validates and builds a run configuration.
    ///
    /// Returns `Ok` exactly when both counts are positive; a zero request
    /// count is reported before a zero concurrency limit.
    pub fn new(
        base_target: String,
        total_requests: usize,
        concurrency_limit: usize,
        auxiliary_secret: String,
    ) -> (r: Result<RunConfig, StartupError>)
        ensures
            r is Ok <==> total_requests > 0 && concurrency_limit > 0,
            r matches Ok(c) ==> {
                &&& c.inv()
                &&& c.base_target == base_target
                &&& c.total_requests == total_requests
                &&& c.concurrency_limit == concurrency_limit
                &&& c.auxiliary_secret == auxiliary_secret
            },
            total_requests == 0 ==> r == Result::<RunConfig, StartupError>::Err(
                StartupError::ZeroTotalRequests,
            ),
            total_requests > 0 && concurrency_limit == 0 ==> r == Result::<
                RunConfig,
                StartupError,
            >::Err(StartupError::ZeroConcurrency),
    {
        if total_requests == 0 {
            Err(StartupError::ZeroTotalRequests)
        } else if concurrency_limit == 0 {
            Err(StartupError::ZeroConcurrency)
        } else {
            Ok(RunConfig { base_target, total_requests, concurrency_limit, auxiliary_secret })
        }
    }
}

} // verus!
