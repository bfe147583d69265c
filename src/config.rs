use vstd::prelude::*;

verus! {

/// Command-line options of a node: a follower is given its producer's URL.
pub struct PoaExampleArgs {
    /// The URL of a producer node, which makes this node a follower.
    pub producer_url: Option<String>,
    /// Where to write this node's enode record, for followers to trust it.
    pub enode_file: Option<String>,
}

impl PoaExampleArgs {
    /// The node follows a producer exactly when a producer URL is given.
    pub fn is_follower(&self) -> (r: bool)
        ensures
            r == self.producer_url.is_some(),
    {
        self.producer_url.is_some()
    }
}

} // verus!
