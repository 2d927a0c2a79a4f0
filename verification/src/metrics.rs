//! The worker's metrics registry handle.

use vstd::prelude::*;

verus! {

/// A handle on the worker's metrics. The counters themselves live in the
/// process-wide recorder.
pub struct Metrics {}

impl Metrics {
    pub fn new() -> (r: Self)
        ensures
            r == (Metrics {}),
    {
        Metrics {}
    }
}

} // verus!
