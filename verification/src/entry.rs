//! What a tree holds for a chain: a value, or nothing.
use vstd::prelude::*;

use crate::id_chain::IdChain;
use crate::node::Node;
use crate::node_view::NodeView;
use crate::tree::Tree;

verus! {

/// What a tree holds for a chain: the first value with that chain, or nothing.
pub struct Entry<'a, TValue: IdChain> {
    node: Option<&'a Node<TValue>>,
    tree: &'a Tree<TValue>,
    _chain: &'a [String],
}

impl<'a, TValue: IdChain> Entry<'a, TValue> {
    /// The value found, if any.
    pub closed spec fn value_view(&self) -> Option<TValue> {
        match self.node {
            Some(node) => Some(node@),
            None => None,
        }
    }

    /// The values of the tree the entry was looked up in.
    pub closed spec fn tree_view(&self) -> Seq<TValue> {
        self.tree@
    }

    pub(crate) fn new(node: Option<&'a Node<TValue>>, tree: &'a Tree<TValue>, chain: &'a [String]) -> (r: Self)
        ensures
            r.value_view() == (match node {
                Some(n) => Some(n@),
                None => None::<TValue>,
            }),
            r.tree_view() == tree@,
    {
        Entry { node, tree, _chain: chain }
    }

    /// The value found, if any.
    pub fn or_none(&self) -> (r: Option<&'a TValue>)
        ensures
            match self.value_view() {
                Some(v) => r == Some(&v),
                None => r is None,
            },
    {
        match self.node {
            Some(node) => Some(node.value_ref()),
            None => None,
        }
    }

    /// A view of the node found, if any.
    pub fn node_or_none(&self) -> (r: Option<NodeView<'a, TValue>>)
        ensures
            match self.value_view() {
                Some(v) => r matches Some(n) && n.value_view() == v && n.tree_view() == self.tree_view(),
                None => r is None,
            },
    {
        match self.node {
            Some(node) => Some(NodeView::new(node, self.tree)),
            None => None,
        }
    }

    /// The value found; there must be one.
    pub fn unwrap(&self) -> (r: &'a TValue)
        requires
            self.value_view() is Some,
        ensures
            *r == self.value_view().unwrap(),
    {
        self.node.unwrap().value_ref()
    }
}

} // verus!
