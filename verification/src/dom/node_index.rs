//! Node indices.
use vstd::prelude::*;

verus! {

/// Index of a node within a document's flat node array. The document root is node 0.
#[derive(Clone, Copy, PartialEq, Eq, Structural, PartialOrd, Ord, Hash, Debug)]
pub struct NodeIndex(pub u32);

impl NodeIndex {
    pub fn new(value: u32) -> (r: NodeIndex)
        ensures
            r.0 == value,
    {
        NodeIndex(value)
    }

    /// The document root.
    pub fn root() -> (r: NodeIndex)
        ensures
            r.0 == 0,
    {
        NodeIndex(0)
    }

    pub fn as_u32(self) -> (r: u32)
        ensures
            r == self.0,
    {
        self.0
    }

    pub fn as_usize(self) -> (r: usize)
        ensures
            r == self.0,
    {
        self.0 as usize
    }
}

} // verus!
