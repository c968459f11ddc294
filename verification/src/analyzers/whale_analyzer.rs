//! Analysis of the behaviour of large holders' wallets.

use vstd::prelude::*;

verus! {

/// Analyses the movements of large holders. It holds no state yet.
pub struct WhaleAnalyzer {}

impl WhaleAnalyzer {
    /// A new analyzer.
    pub fn new() -> (analyzer: WhaleAnalyzer)
        ensures
            analyzer == (WhaleAnalyzer {  }),
    {
        WhaleAnalyzer {  }
    }
}

} // verus!
