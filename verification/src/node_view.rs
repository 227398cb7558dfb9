//! A node of a tree, seen together with the tree that holds it.
use vstd::prelude::*;

use crate::id_chain::{Depth, IdChain};
use crate::node::Node;
use crate::tree::{children_defined, children_of, derefs, Tree};

verus! {

/// A node seen together with the tree that holds it.
#[derive(Debug)]
pub struct NodeView<'a, TValue: IdChain> {
    node: &'a Node<TValue>,
    tree: &'a Tree<TValue>,
}

impl<'a, TValue: IdChain> NodeView<'a, TValue> {
    /// The value of the node.
    pub closed spec fn value_view(&self) -> TValue {
        self.node@
    }

    /// The values of the tree the node belongs to.
    pub closed spec fn tree_view(&self) -> Seq<TValue> {
        self.tree@
    }

    pub(crate) fn new(node: &'a Node<TValue>, tree: &'a Tree<TValue>) -> (r: Self)
        ensures
            r.value_view() == node@,
            r.tree_view() == tree@,
    {
        NodeView { node, tree }
    }

    /// The depth of the node's value.
    pub fn depth(&self) -> (r: usize)
        requires
            self.value_view().id_chain().len() >= 1,
        ensures
            r == self.value_view().id_chain().len() - 1,
    {
        self.node.value_ref().depth()
    }

    /// The node's value.
    pub fn value(&self) -> (r: &TValue)
        ensures
            *r == self.value_view(),
    {
        self.node.value_ref()
    }

    /// The values that follow the node in the tree with a depth at least its own.
    pub fn iter_children(&self) -> (r: Vec<&'a TValue>)
        requires
            children_defined(self.tree_view(), self.value_view()),
        ensures
            derefs(r@) == children_of(self.tree_view(), self.value_view()),
    {
        self.tree.children(self.node)
    }
}

} // verus!
