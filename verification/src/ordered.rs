//! Ordered associative containers and the priority queue.
//!
//! Tree-backed maps and sets are charged an approximate per-entry node
//! cost: each of the `count` entries occupies its inline size on the
//! heap plus whatever the entry itself owns. A set is a map with a
//! zero-size value, and a priority queue is charged like a set — a flat
//! per-entry cost with no attempt to model tree overhead.

use vstd::prelude::*;

use crate::contract::counted_node_cost;
use crate::contract::heap_sum;
use crate::contract::DataSize;

verus! {

/// An ordered map, held as its entries. Only the entry count and the
/// entries' own footprints enter the estimate.
pub struct TreeMap<K, V> {
    entries: Vec<(K, V)>,
}

impl<K, V> TreeMap<K, V> {
    /// The entries, as key-value pairs.
    pub closed spec fn view(&self) -> Seq<(K, V)> {
        self.entries@
    }

    /// An empty map.
    pub fn new() -> (r: TreeMap<K, V>)
        ensures
            r@ == Seq::<(K, V)>::empty(),
    {
        TreeMap { entries: Vec::new() }
    }

    /// A map holding exactly the given entries. Callers keep keys
    /// distinct; the estimate does not depend on it.
    pub fn from_entries(entries: Vec<(K, V)>) -> (r: TreeMap<K, V>)
        ensures
            r@ == entries@,
    {
        TreeMap { entries }
    }

    /// Adds an entry. Callers keep keys distinct; the estimate does
    /// not depend on it.
    pub fn insert(&mut self, key: K, value: V)
        ensures
            final(self)@ == old(self)@.push((key, value)),
    {
        self.entries.push((key, value));
    }

    /// The number of entries.
    pub fn len(&self) -> (n: usize)
        ensures
            n == self@.len(),
    {
        self.entries.len()
    }
}

impl<K: DataSize, V: DataSize> DataSize for TreeMap<K, V> {
    /// Per entry: the entry's inline size (its node slot on the heap)
    /// plus the key's and value's own footprints.
    open spec fn spec_heap_size(&self) -> nat {
        self@.len() * vstd::layout::size_of::<(K, V)>() + heap_sum(self@)
    }

    open spec fn spec_is_dynamic() -> bool {
        true
    }

    open spec fn spec_static_heap_size() -> nat {
        0
    }

    proof fn lemma_static_heap_size(&self) {
    }

    fn is_dynamic() -> bool {
        true
    }

    fn static_heap_size() -> usize {
        0
    }

    fn estimate_heap_size(&self) -> usize {
        counted_node_cost(self.entries.as_slice())
    }
}

/// An ordered set: accounted as a map with a zero-size value.
pub struct TreeSet<T> {
    elems: Vec<T>,
}

impl<T> TreeSet<T> {
    /// The elements.
    pub closed spec fn view(&self) -> Seq<T> {
        self.elems@
    }

    /// An empty set.
    pub fn new() -> (r: TreeSet<T>)
        ensures
            r@ == Seq::<T>::empty(),
    {
        TreeSet { elems: Vec::new() }
    }

    /// A set holding exactly the given elements. Callers keep them
    /// distinct; the estimate does not depend on it.
    pub fn from_elems(elems: Vec<T>) -> (r: TreeSet<T>)
        ensures
            r@ == elems@,
    {
        TreeSet { elems }
    }

    /// Adds an element. Callers keep elements distinct; the estimate
    /// does not depend on it.
    pub fn insert(&mut self, value: T)
        ensures
            final(self)@ == old(self)@.push(value),
    {
        self.elems.push(value);
    }

    /// The number of elements.
    pub fn len(&self) -> (n: usize)
        ensures
            n == self@.len(),
    {
        self.elems.len()
    }
}

impl<T: DataSize> DataSize for TreeSet<T> {
    open spec fn spec_heap_size(&self) -> nat {
        self@.len() * vstd::layout::size_of::<T>() + heap_sum(self@)
    }

    open spec fn spec_is_dynamic() -> bool {
        true
    }

    open spec fn spec_static_heap_size() -> nat {
        0
    }

    proof fn lemma_static_heap_size(&self) {
    }

    fn is_dynamic() -> bool {
        true
    }

    fn static_heap_size() -> usize {
        0
    }

    fn estimate_heap_size(&self) -> usize {
        counted_node_cost(self.elems.as_slice())
    }
}

/// A priority queue: charged the same flat per-entry cost as an
/// ordered set.
pub struct PriorityQueue<T> {
    elems: Vec<T>,
}

impl<T> PriorityQueue<T> {
    /// The elements, in storage order.
    pub closed spec fn view(&self) -> Seq<T> {
        self.elems@
    }

    /// An empty queue.
    pub fn new() -> (r: PriorityQueue<T>)
        ensures
            r@ == Seq::<T>::empty(),
    {
        PriorityQueue { elems: Vec::new() }
    }

    /// A queue holding exactly the given elements.
    pub fn from_elems(elems: Vec<T>) -> (r: PriorityQueue<T>)
        ensures
            r@ == elems@,
    {
        PriorityQueue { elems }
    }

    /// Adds an element.
    pub fn push(&mut self, value: T)
        ensures
            final(self)@ == old(self)@.push(value),
    {
        self.elems.push(value);
    }

    /// The number of elements.
    pub fn len(&self) -> (n: usize)
        ensures
            n == self@.len(),
    {
        self.elems.len()
    }
}

impl<T: DataSize> DataSize for PriorityQueue<T> {
    open spec fn spec_heap_size(&self) -> nat {
        self@.len() * vstd::layout::size_of::<T>() + heap_sum(self@)
    }

    open spec fn spec_is_dynamic() -> bool {
        true
    }

    open spec fn spec_static_heap_size() -> nat {
        0
    }

    proof fn lemma_static_heap_size(&self) {
    }

    fn is_dynamic() -> bool {
        true
    }

    fn static_heap_size() -> usize {
        0
    }

    fn estimate_heap_size(&self) -> usize {
        counted_node_cost(self.elems.as_slice())
    }
}

} // verus!
