//! A value held in a tree.
use vstd::prelude::*;

use crate::id_chain::IdChain;

verus! {

/// A value held in a tree, identified by the value's chain.
#[derive(Debug, PartialEq, Eq)]
pub struct Node<TValue> {
    pub(crate) value: TValue,
}

impl<TValue> View for Node<TValue> {
    type V = TValue;

    closed spec fn view(&self) -> TValue {
        self.value
    }
}

impl<TValue> Node<TValue> {
    /// A node holding `value`.
    pub fn new(value: TValue) -> (r: Self)
        ensures
            r@ == value,
    {
        Node { value }
    }

    /// The value held.
    pub(crate) fn value_ref(&self) -> (r: &TValue)
        ensures
            *r == self@,
    {
        &self.value
    }

    /// The value held, to change in place.
    pub(crate) fn value_mut(&mut self) -> (r: &mut TValue)
        ensures
            *r == old(self)@,
            final(self)@ == *final(r),
    {
        &mut self.value
    }
}

impl<TValue: IdChain> IdChain for Node<TValue> {
    open spec fn id_chain(&self) -> Seq<Seq<char>> {
        self@.id_chain()
    }

    fn chain(&self) -> (r: &[String]) {
        self.value.chain()
    }
}

} // verus!
