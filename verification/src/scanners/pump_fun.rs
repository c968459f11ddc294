//! Discovery of token launches on pump.fun.

use vstd::prelude::*;

verus! {

/// Scans pump.fun for token launches. It holds no state yet.
pub struct PumpFunScanner {}

impl PumpFunScanner {
    /// A new scanner.
    pub fn new() -> (scanner: PumpFunScanner)
        ensures
            scanner == (PumpFunScanner {  }),
    {
        PumpFunScanner {  }
    }
}

} // verus!
