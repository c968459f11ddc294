//! Tracking of the wallets of large holders.

use vstd::prelude::*;

verus! {

/// Follows the wallets of large holders. It holds no state yet.
pub struct WhaleTracker {}

impl WhaleTracker {
    /// A new tracker.
    pub fn new() -> (tracker: WhaleTracker)
        ensures
            tracker == (WhaleTracker {  }),
    {
        WhaleTracker {  }
    }
}

} // verus!
