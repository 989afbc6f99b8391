//! Run statistics that a worker hands over when its loop ends.

use std::time::Duration;
use vstd::prelude::*;

verus! {

/// Summary of one worker's run: how long it was active and how many workload
/// invocations it completed without seeing a stop request afterwards.
#[derive(Debug, Clone, Copy)]
pub struct RunInfo {
    elapsed: Duration,
    iterations: u8,
}

impl RunInfo {
    /// The time the worker was active.
    pub closed spec fn spec_elapsed(&self) -> Duration {
        self.elapsed
    }

    /// The number of completed iterations.
    pub closed spec fn spec_iterations(&self) -> u8 {
        self.iterations
    }

    /// A record of `iterations` completed iterations over `elapsed`.
    pub fn new(elapsed: Duration, iterations: u8) -> (info: RunInfo)
        ensures
            info.spec_elapsed() == elapsed,
            info.spec_iterations() == iterations,
    {
        RunInfo { elapsed, iterations }
    }

    #[verifier::when_used_as_spec(spec_elapsed)]
    pub fn elapsed(&self) -> (d: Duration)
        ensures
            d == self.spec_elapsed(),
    {
        self.elapsed
    }

    #[verifier::when_used_as_spec(spec_iterations)]
    pub fn iterations(&self) -> (n: u8)
        ensures
            n == self.spec_iterations(),
    {
        self.iterations
    }
}

} // verus!
