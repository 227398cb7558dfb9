//! Values identified by a chain of links, such as the path of a test
//! (`package`, `crate`, `module`, ..., `name`).
use vstd::prelude::*;

use crate::text::string_views;

verus! {

/// A value identified by a chain of text links.
pub trait IdChain {
    /// The links of the chain, as text; every implementation states its own.
    spec fn id_chain(&self) -> Seq<Seq<char>>;

    /// The links of the chain.
    fn chain(&self) -> (r: &[String])
        ensures
            string_views(r@) == self.id_chain(),
    ;
}

/// The depth of a value in a hierarchy: how many links come before its last.
pub trait Depth {
    /// Whether the value has a depth (its chain is not empty).
    spec fn has_depth(&self) -> bool;

    /// The depth, where it has one.
    spec fn spec_depth(&self) -> int;

    /// The depth of the value; a chain of one link has depth 0.
    fn depth(&self) -> (r: usize)
        requires
            self.has_depth(),
        ensures
            r == self.spec_depth(),
    ;
}

impl<T: IdChain> Depth for T {
    open spec fn has_depth(&self) -> bool {
        self.id_chain().len() >= 1
    }

    open spec fn spec_depth(&self) -> int {
        self.id_chain().len() - 1
    }

    fn depth(&self) -> (r: usize) {
        self.chain().len() - 1
    }
}

} // verus!
