//! Diagnostic counters reported by the contact-discovery handshake.

use vstd::prelude::*;

use std::collections::HashMap;

verus! {

/// Named counters collected during an enclave handshake, handed to the
/// caller for its own telemetry; this layer never reads them back.
pub struct Cds2Metrics(pub HashMap<String, i64>);

impl Cds2Metrics {
    /// An empty counter set.
    pub fn new() -> (r: Cds2Metrics)
        ensures
            r.0@.len() == 0,
    {
        Cds2Metrics(HashMap::new())
    }
}

} // verus!
