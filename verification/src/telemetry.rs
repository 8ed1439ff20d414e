//! Telemetry sampling: one latency sample per fixed interval.
//!
//! The gateway connection reports its latency only once a heartbeat has been
//! acknowledged; before that the reading is absent and the sample records
//! zero. Reading the connection handle and writing to the metrics sink are
//! remote calls made by the host process; the sample value itself is fixed
//! here.

use vstd::prelude::*;

verus! {

/// The latency value actually reported to the metrics sink: the measured
/// round-trip in milliseconds, or zero while no measurement exists yet.
pub fn effective_latency_millis(measured: Option<u64>) -> (r: u64)
    ensures
        r == match measured {
            Some(ms) => ms,
            None => 0u64,
        },
{
    match measured {
        Some(ms) => ms,
        None => 0,
    }
}

} // verus!
