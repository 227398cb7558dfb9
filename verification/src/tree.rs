//! Values kept in insertion order and found again by their id chain; the
//! values that follow a value with a depth at least its own are its children.
use vstd::prelude::*;

use crate::entry::Entry;
use crate::id_chain::{Depth, IdChain};
use crate::node::Node;
use crate::node_view::NodeView;
use crate::text::string_views;

verus! {

/// Whether position `i` holds the first value of `values` whose chain is `chain`.
pub open spec fn is_first_match<T: IdChain>(values: Seq<T>, chain: Seq<Seq<char>>, i: int) -> bool {
    &&& 0 <= i < values.len()
    &&& values[i].id_chain() == chain
    &&& forall|j: int| 0 <= j < i ==> values[j].id_chain() != chain
}

/// The position of the first value of `values` whose chain is `chain`, if any.
pub open spec fn first_match<T: IdChain>(values: Seq<T>, chain: Seq<Seq<char>>) -> Option<int> {
    if exists|i: int| values[i].id_chain() == chain && 0 <= i < values.len() {
        Some(choose|i: int| is_first_match(values, chain, i))
    } else {
        None
    }
}

/// The value found for `chain`: the first one whose chain it is.
pub open spec fn found<T: IdChain>(values: Seq<T>, chain: Seq<Seq<char>>) -> Option<T> {
    match first_match(values, chain) {
        Some(i) => Some(values[i]),
        None => None,
    }
}

/// Whether `value` has a depth of at least `d`.
pub open spec fn at_least_depth<T: IdChain>(value: T, d: int) -> bool {
    value.id_chain().len() >= 1 && value.id_chain().len() - 1 >= d
}

/// The end of the run of values from position `j` on whose depth is at
/// least `d`: the first position from `j` that does not qualify, or the length.
pub open spec fn run_end<T: IdChain>(values: Seq<T>, j: int, d: int) -> int
    decreases values.len() - j,
{
    if j < 0 || j >= values.len() {
        values.len() as int
    } else if at_least_depth(values[j], d) {
        run_end(values, j + 1, d)
    } else {
        j
    }
}

/// Whether the children of `value` can be listed in `values`: `value`'s
/// chain is in `values`, `value` has a depth, and the run of its children
/// does not end at a value without one.
pub open spec fn children_defined<T: IdChain>(values: Seq<T>, value: T) -> bool {
    match first_match(values, value.id_chain()) {
        Some(i) => {
            let d = value.id_chain().len() - 1;
            let end = run_end(values, i + 1, d);
            &&& value.id_chain().len() >= 1
            &&& (end == values.len() || values[end].id_chain().len() >= 1)
        },
        None => false,
    }
}

/// The children of `value` in `values`: the values after the first one with
/// `value`'s chain, up to the first whose depth is less than `value`'s.
pub open spec fn children_of<T: IdChain>(values: Seq<T>, value: T) -> Seq<T> {
    let i = first_match(values, value.id_chain()).unwrap();
    let d = value.id_chain().len() - 1;
    values.subrange(i + 1, run_end(values, i + 1, d))
}

/// The values that a sequence of references points to.
pub open spec fn derefs<T>(s: Seq<&T>) -> Seq<T> {
    Seq::new(s.len(), |i: int| *s[i])
}

/// Values kept in insertion order, found again by their chains.
#[derive(Debug, PartialEq, Eq)]
pub struct Tree<TValue: IdChain> {
    values: Vec<Node<TValue>>,
}

impl<TValue: IdChain> View for Tree<TValue> {
    type V = Seq<TValue>;

    closed spec fn view(&self) -> Seq<TValue> {
        Seq::new(self.values@.len(), |i: int| self.values@[i]@)
    }
}

/// Whether two chains are equal, link by link.
pub fn chains_equal(a: &[String], b: &[String]) -> (r: bool)
    ensures
        r == (string_views(a@) == string_views(b@)),
{
    if a.len() != b.len() {
        proof {
            assert(string_views(a@).len() != string_views(b@).len());
        }
        return false;
    }
    let mut i: usize = 0;
    while i < a.len()
        invariant
            a@.len() == b@.len(),
            i <= a@.len(),
            forall|j: int| 0 <= j < i ==> a@[j]@ == b@[j]@,
        decreases a@.len() - i,
    {
        if a[i] != b[i] {
            proof {
                assert(string_views(a@)[i as int] != string_views(b@)[i as int]);
            }
            return false;
        }
        i = i + 1;
    }
    proof {
        assert(string_views(a@) =~= string_views(b@));
    }
    true
}

/// If a value with `chain` exists, the first one does.
pub proof fn lemma_first_match_exists<T: IdChain>(values: Seq<T>, chain: Seq<Seq<char>>, k: int)
    requires
        0 <= k < values.len(),
        values[k].id_chain() == chain,
    ensures
        first_match(values, chain) is Some,
        is_first_match(values, chain, first_match(values, chain).unwrap()),
    decreases k,
{
    if exists|j: int| 0 <= j < k && values[j].id_chain() == chain {
        let j = choose|j: int| 0 <= j < k && values[j].id_chain() == chain;
        lemma_first_match_exists(values, chain, j);
    } else {
        assert(is_first_match(values, chain, k));
    }
}

/// There is only one first match.
pub proof fn lemma_first_match_unique<T: IdChain>(values: Seq<T>, chain: Seq<Seq<char>>, i: int)
    requires
        is_first_match(values, chain, i),
    ensures
        first_match(values, chain) == Some(i),
{
    lemma_first_match_exists(values, chain, i);
    let k = first_match(values, chain).unwrap();
    assert(is_first_match(values, chain, k));
    if k < i {
        assert(values[k].id_chain() != chain);
    } else if i < k {
        assert(values[i].id_chain() != chain);
    }
}

/// Every value in a run has depth at least `d`, and the run ends at or after `j`.
pub proof fn lemma_run_end<T: IdChain>(values: Seq<T>, j: int, d: int)
    requires
        0 <= j <= values.len(),
    ensures
        j <= run_end(values, j, d) <= values.len(),
        forall|k: int| j <= k < run_end(values, j, d) ==> at_least_depth(#[trigger] values[k], d),
        run_end(values, j, d) < values.len() ==> !at_least_depth(values[run_end(values, j, d)], d),
    decreases values.len() - j,
{
    if j < values.len() && at_least_depth(values[j], d) {
        lemma_run_end(values, j + 1, d);
    }
}

/// Inserting a value does not change what an earlier lookup found.
pub proof fn lemma_insert_keeps_found<T: IdChain>(values: Seq<T>, x: T, chain: Seq<Seq<char>>)
    requires
        found(values, chain) is Some,
    ensures
        found(values.push(x), chain) == found(values, chain),
{
    let i = first_match(values, chain).unwrap();
    let k = choose|k: int| values[k].id_chain() == chain && 0 <= k < values.len();
    lemma_first_match_exists(values, chain, k);
    assert(is_first_match(values.push(x), chain, i));
    lemma_first_match_unique(values.push(x), chain, i);
}

/// After inserting `x`, looking up `x`'s chain finds `x`, unless a value
/// with the same chain was already there, which is then still found.
pub proof fn lemma_insert_then_get<T: IdChain>(values: Seq<T>, x: T)
    ensures
        found(values.push(x), x.id_chain()) == (match found(values, x.id_chain()) {
            Some(v) => Some(v),
            None => Some(x),
        }),
{
    let chain = x.id_chain();
    let pushed = values.push(x);
    if found(values, chain) is Some {
        lemma_insert_keeps_found(values, x, chain);
    } else {
        assert forall|j: int| 0 <= j < values.len() implies values[j].id_chain() != chain by {
            if values[j].id_chain() == chain {
                lemma_first_match_exists(values, chain, j);
            }
        }
        assert(is_first_match(pushed, chain, values.len() as int));
        lemma_first_match_unique(pushed, chain, values.len() as int);
    }
}

/// Every child of a value is at least as deep as the value.
pub proof fn lemma_children_not_shallower<T: IdChain>(values: Seq<T>, value: T)
    requires
        children_defined(values, value),
    ensures
        forall|k: int|
            0 <= k < children_of(values, value).len() ==> at_least_depth(
                #[trigger] children_of(values, value)[k],
                value.id_chain().len() - 1,
            ),
{
    let k0 = choose|k: int| values[k].id_chain() == value.id_chain() && 0 <= k < values.len();
    lemma_first_match_exists(values, value.id_chain(), k0);
    let i = first_match(values, value.id_chain()).unwrap();
    let d = value.id_chain().len() - 1;
    lemma_run_end(values, i + 1, d);
    assert forall|k: int| 0 <= k < children_of(values, value).len() implies at_least_depth(
        #[trigger] children_of(values, value)[k],
        d,
    ) by {
        assert(children_of(values, value)[k] == values[i + 1 + k]);
    }
}

/// The children of a value are the values that directly follow its first
/// occurrence, and the value after the last child (if any) is shallower.
pub proof fn lemma_children_end_at_shallower<T: IdChain>(values: Seq<T>, value: T)
    requires
        children_defined(values, value),
    ensures
        ({
            let i = first_match(values, value.id_chain()).unwrap();
            let end = i + 1 + children_of(values, value).len();
            &&& end <= values.len()
            &&& children_of(values, value) == values.subrange(i + 1, end)
            &&& end < values.len() ==> values[end].id_chain().len() - 1 < value.id_chain().len() - 1
        }),
{
    let k0 = choose|k: int| values[k].id_chain() == value.id_chain() && 0 <= k < values.len();
    lemma_first_match_exists(values, value.id_chain(), k0);
    let i = first_match(values, value.id_chain()).unwrap();
    let d = value.id_chain().len() - 1;
    lemma_run_end(values, i + 1, d);
}

impl<TValue: IdChain> Tree<TValue> {
    /// An empty tree.
    pub fn new() -> (r: Self)
        ensures
            r@ == Seq::<TValue>::empty(),
    {
        let r = Tree { values: Vec::new() };
        assert(r@ =~= Seq::<TValue>::empty());
        r
    }

    /// Adds `element` after all values already in the tree.
    pub fn insert(&mut self, element: TValue)
        ensures
            final(self)@ == old(self)@.push(element),
    {
        self.values.push(Node::new(element));
        assert(self@ =~= old(self)@.push(element));
    }

    /// The values in insertion order.
    pub fn iter(&self) -> (r: Vec<&TValue>)
        ensures
            derefs(r@) == self@,
    {
        let mut r: Vec<&TValue> = Vec::new();
        let mut i: usize = 0;
        while i < self.values.len()
            invariant
                i <= self.values@.len(),
                r@.len() == i,
                self@.len() == self.values@.len(),
                derefs(r@) == self@.take(i as int),
            decreases self.values@.len() - i,
        {
            let v = self.values[i].value_ref();
            let ghost old_r = r@;
            r.push(v);
            proof {
                assert(*v == self@[i as int]);
                assert forall|k: int| 0 <= k < i + 1 implies derefs(r@)[k] == self@.take(i + 1)[k] by {
                    if k < i {
                        assert(derefs(old_r)[k] == self@.take(i as int)[k]);
                    }
                }
                assert(derefs(r@) =~= self@.take(i + 1));
            }
            i = i + 1;
        }
        assert(self@.take(i as int) =~= self@);
        r
    }

    /// A view of each node in insertion order.
    pub fn iter_nodes<'a>(&'a self) -> (r: Vec<NodeView<'a, TValue>>)
        ensures
            r@.len() == self@.len(),
            forall|i: int|
                0 <= i < r@.len() ==> #[trigger] r@[i].value_view() == self@[i]
                    && r@[i].tree_view() == self@,
    {
        let mut r: Vec<NodeView<'a, TValue>> = Vec::new();
        let mut i: usize = 0;
        while i < self.values.len()
            invariant
                i <= self.values@.len(),
                r@.len() == i,
                forall|k: int|
                    0 <= k < i ==> #[trigger] r@[k].value_view() == self@[k] && r@[k].tree_view()
                        == self@,
            decreases self.values@.len() - i,
        {
            r.push(NodeView::new(&self.values[i], self));
            i = i + 1;
        }
        r
    }

    /// The first value whose chain is `chain`, if any.
    pub fn get(&self, chain: &[String]) -> (r: Option<&TValue>)
        ensures
            match found(self@, string_views(chain@)) {
                Some(v) => r == Some(&v),
                None => r is None,
            },
    {
        match self.find_node(chain) {
            Some(i) => Some(self.values[i].value_ref()),
            None => None,
        }
    }

    /// The first value whose chain is `chain`, if any, to change in place.
    pub fn get_mut(&mut self, chain: &[String]) -> (r: Option<&mut TValue>)
        ensures
            match first_match(old(self)@, string_views(chain@)) {
                Some(i) => r matches Some(v) && *v == old(self)@[i] && final(self)@ == old(
                    self,
                )@.update(i, *final(v)),
                None => r is None && final(self)@ == old(self)@,
            },
    {
        match self.find_node(chain) {
            Some(i) => {
                let node = &mut self.values[i];
                Some(node.value_mut())
            },
            None => None,
        }
    }

    /// A view of the first node whose chain is `chain`, if any.
    pub fn get_node<'a>(&'a self, chain: &[String]) -> (r: Option<NodeView<'a, TValue>>)
        ensures
            match found(self@, string_views(chain@)) {
                Some(v) => r matches Some(n) && n.value_view() == v && n.tree_view() == self@,
                None => r is None,
            },
    {
        match self.find_node(chain) {
            Some(i) => Some(NodeView::new(&self.values[i], self)),
            None => None,
        }
    }

    /// The entry for `chain`: the first value whose chain it is, if any.
    pub fn entry<'a>(&'a self, chain: &'a [String]) -> (r: Entry<'a, TValue>)
        ensures
            r.value_view() == found(self@, string_views(chain@)),
            r.tree_view() == self@,
    {
        match self.find_node(chain) {
            Some(i) => Entry::new(Some(&self.values[i]), self, chain),
            None => Entry::new(None, self, chain),
        }
    }

    /// The position of the first node whose chain is `chain`, if any.
    fn find_node(&self, chain: &[String]) -> (r: Option<usize>)
        ensures
            match r {
                Some(i) => first_match(self@, string_views(chain@)) == Some(i as int)
                    && is_first_match(self@, string_views(chain@), i as int) && i
                    < self.values@.len(),
                None => first_match(self@, string_views(chain@)) is None,
            },
            self@.len() == self.values@.len(),
    {
        let mut i: usize = 0;
        while i < self.values.len()
            invariant
                i <= self.values@.len(),
                forall|j: int| 0 <= j < i ==> self@[j].id_chain() != string_views(chain@),
            decreases self.values@.len() - i,
        {
            if chains_equal(self.values[i].chain(), chain) {
                proof {
                    assert(is_first_match(self@, string_views(chain@), i as int));
                    lemma_first_match_unique(self@, string_views(chain@), i as int);
                }
                return Some(i);
            }
            i = i + 1;
        }
        None
    }

    /// The nodes after `node`'s first occurrence whose depth is at least `node`'s.
    pub(crate) fn children(&self, node: &Node<TValue>) -> (r: Vec<&TValue>)
        requires
            children_defined(self@, node@),
        ensures
            derefs(r@) == children_of(self@, node@),
    {
        let ghost values = self@;
        let ghost chain = node@.id_chain();
        let n = self.values.len();
        let found_index = self.find_node(node.chain());
        let index = found_index.unwrap();
        let d = node.depth();
        let ghost end = run_end(values, index + 1, d as int);
        proof {
            lemma_run_end(values, index + 1, d as int);
        }
        let mut r: Vec<&TValue> = Vec::new();
        let mut j: usize = index + 1;
        while j < self.values.len()
            invariant
                values == self@,
                index < values.len(),
                index + 1 <= j <= end,
                end == run_end(values, index + 1, d as int),
                end == run_end(values, j as int, d as int),
                end <= values.len(),
                forall|k: int| index + 1 <= k < end ==> at_least_depth(#[trigger] values[k], d as int),
                end < values.len() ==> !at_least_depth(values[end], d as int),
                end == values.len() || values[end].id_chain().len() >= 1,
                derefs(r@) == values.subrange(index + 1, j as int),
                r@.len() == j - index - 1,
            ensures
                derefs(r@) == values.subrange(index + 1, end),
            decreases self.values@.len() - j,
        {
            let v = self.values[j].value_ref();
            if v.chain().len() == 0 {
                proof {
                    assert(j == end);
                }
                break;
            }
            if v.depth() < d {
                proof {
                    assert(j == end);
                }
                break;
            }
            let ghost old_r = r@;
            r.push(v);
            proof {
                assert forall|k: int| 0 <= k < j - index implies derefs(r@)[k] == values.subrange(
                    index + 1,
                    j + 1,
                )[k] by {
                    if k < j - index - 1 {
                        assert(derefs(old_r)[k] == values.subrange(index + 1, j as int)[k]);
                    }
                }
                assert(derefs(r@) =~= values.subrange(index + 1, j + 1));
            }
            j = j + 1;
        }
        r
    }
}

} // verus!
