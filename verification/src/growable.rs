//! The growable sequence family: a resizable array and a double-ended
//! queue.
//!
//! Both own a contiguous backing buffer of `capacity` slots, of which
//! the first `length` are occupied. The buffer is charged in full —
//! reserved-but-unused slots still occupy heap memory — while element
//! footprints are charged for occupied slots only, and unoccupied slots
//! are never visited.

use vstd::prelude::*;

use crate::arith::lemma_saturated_add;
use crate::arith::sat_add;
use crate::arith::sat_mul;
use crate::arith::saturated;
use crate::contract::heap_sum;
use crate::contract::lemma_heap_sum_static;
use crate::contract::occupied_cost;
use crate::contract::DataSize;

verus! {

/// A growable array: `capacity` allocated slots, the first `len` of
/// them occupied. Mirrors the accounting shape of a resizable vector.
pub struct ResizableArray<T> {
    elems: Vec<T>,
    cap: usize,
}

impl<T> ResizableArray<T> {
    /// The occupied elements, in order.
    pub closed spec fn view(&self) -> Seq<T> {
        self.elems@
    }

    /// The number of allocated slots.
    pub closed spec fn spec_capacity(&self) -> nat {
        self.cap as nat
    }

    /// Capacity never falls below length.
    pub open spec fn wf(&self) -> bool {
        self@.len() <= self.spec_capacity()
    }

    /// An empty array owning no buffer at all.
    pub fn new() -> (r: ResizableArray<T>)
        ensures
            r@ == Seq::<T>::empty(),
            r.spec_capacity() == 0,
            r.wf(),
    {
        ResizableArray { elems: Vec::new(), cap: 0 }
    }

    /// Takes ownership of the given elements with capacity equal to
    /// their number, as an exactly-sized construction yields.
    pub fn from_vec(elems: Vec<T>) -> (r: ResizableArray<T>)
        ensures
            r@ == elems@,
            r.spec_capacity() == elems@.len(),
            r.wf(),
    {
        let cap = elems.len();
        ResizableArray { elems, cap }
    }

    /// The number of occupied slots.
    pub fn len(&self) -> (n: usize)
        ensures
            n == self@.len(),
    {
        self.elems.len()
    }

    /// The number of allocated slots.
    pub fn capacity(&self) -> (n: usize)
        ensures
            n == self.spec_capacity(),
    {
        self.cap
    }

    /// Grows the buffer to hold exactly `additional` more elements than
    /// are currently occupied, if it does not already.
    pub fn reserve_exact(&mut self, additional: usize)
        requires
            old(self).wf(),
            old(self)@.len() + additional <= usize::MAX,
        ensures
            final(self)@ == old(self)@,
            final(self).spec_capacity() == if old(self)@.len() + additional
                > old(self).spec_capacity() {
                (old(self)@.len() + additional) as nat
            } else {
                old(self).spec_capacity()
            },
            final(self).wf(),
    {
        let needed = self.elems.len() + additional;
        if needed > self.cap {
            self.cap = needed;
        }
    }

    /// Appends an element, growing the buffer when it is full.
    pub fn push(&mut self, value: T)
        requires
            old(self).wf(),
            old(self)@.len() < usize::MAX,
        ensures
            final(self)@ == old(self)@.push(value),
            final(self).spec_capacity() == if old(self)@.len() < old(self).spec_capacity() {
                old(self).spec_capacity()
            } else {
                saturated(2 * old(self).spec_capacity() + 1)
            },
            final(self).wf(),
    {
        if self.elems.len() == self.cap {
            self.cap = sat_add(sat_mul(self.cap, 2), 1);
        }
        self.elems.push(value);
    }
}

impl<T: DataSize> DataSize for ResizableArray<T> {
    /// The whole buffer (capacity, not length) plus the footprints of
    /// the occupied elements.
    open spec fn spec_heap_size(&self) -> nat {
        self.spec_capacity() * vstd::layout::size_of::<T>() + heap_sum(self@)
    }

    open spec fn spec_is_dynamic() -> bool {
        true
    }

    open spec fn spec_static_heap_size() -> nat {
        0
    }

    proof fn lemma_static_heap_size(&self) {
    }

    fn is_dynamic() -> bool {
        true
    }

    fn static_heap_size() -> usize {
        0
    }

    fn estimate_heap_size(&self) -> usize {
        let base = sat_mul(self.cap, core::mem::size_of::<T>());
        let used = occupied_cost(self.elems.as_slice());
        proof {
            lemma_saturated_add(
                self.spec_capacity() * vstd::layout::size_of::<T>(),
                heap_sum(self@),
            );
        }
        sat_add(base, used)
    }
}

/// A growable sequence of `n` non-dynamic elements with capacity `k`
/// owns exactly `k × element inline size + n × static contribution`.
pub proof fn lemma_static_element_cost<T: DataSize>(a: &ResizableArray<T>)
    requires
        !T::spec_is_dynamic(),
    ensures
        a.spec_heap_size() == a.spec_capacity() * vstd::layout::size_of::<T>() + a@.len()
            * T::spec_static_heap_size(),
{
    lemma_heap_sum_static::<T>(a@);
}

/// Reserving capacity without adding elements never decreases the owned
/// footprint, and increases it by exactly the element inline size per
/// newly reserved slot.
pub proof fn lemma_reserve_monotonic<T: DataSize>(
    before: &ResizableArray<T>,
    after: &ResizableArray<T>,
)
    requires
        after@ == before@,
        after.spec_capacity() >= before.spec_capacity(),
    ensures
        after.spec_heap_size() == before.spec_heap_size() + (after.spec_capacity()
            - before.spec_capacity()) * vstd::layout::size_of::<T>(),
        after.spec_heap_size() >= before.spec_heap_size(),
{
    let c = before.spec_capacity();
    let a = after.spec_capacity();
    let s = vstd::layout::size_of::<T>();
    assert(a * s == c * s + (a - c) * s) by (nonlinear_arith)
        requires
            a >= c,
    ;
}

/// A double-ended queue: the same buffer accounting as a resizable
/// array, with insertion and removal at both ends.
pub struct Deque<T> {
    elems: Vec<T>,
    cap: usize,
}

impl<T> Deque<T> {
    /// The occupied elements, front first.
    pub closed spec fn view(&self) -> Seq<T> {
        self.elems@
    }

    /// The number of allocated slots.
    pub closed spec fn spec_capacity(&self) -> nat {
        self.cap as nat
    }

    /// Capacity never falls below length.
    pub open spec fn wf(&self) -> bool {
        self@.len() <= self.spec_capacity()
    }

    /// An empty queue owning no buffer at all.
    pub fn new() -> (r: Deque<T>)
        ensures
            r@ == Seq::<T>::empty(),
            r.spec_capacity() == 0,
            r.wf(),
    {
        Deque { elems: Vec::new(), cap: 0 }
    }

    /// The number of occupied slots.
    pub fn len(&self) -> (n: usize)
        ensures
            n == self@.len(),
    {
        self.elems.len()
    }

    /// The number of allocated slots.
    pub fn capacity(&self) -> (n: usize)
        ensures
            n == self.spec_capacity(),
    {
        self.cap
    }

    /// Appends an element at the back, growing the buffer when full.
    pub fn push_back(&mut self, value: T)
        requires
            old(self).wf(),
            old(self)@.len() < usize::MAX,
        ensures
            final(self)@ == old(self)@.push(value),
            final(self).wf(),
            final(self).spec_capacity() >= old(self).spec_capacity(),
    {
        if self.elems.len() == self.cap {
            self.cap = sat_add(sat_mul(self.cap, 2), 1);
        }
        self.elems.push(value);
    }

    /// Inserts an element at the front, growing the buffer when full.
    pub fn push_front(&mut self, value: T)
        requires
            old(self).wf(),
            old(self)@.len() < usize::MAX,
        ensures
            final(self)@ == seq![value] + old(self)@,
            final(self).wf(),
            final(self).spec_capacity() >= old(self).spec_capacity(),
    {
        if self.elems.len() == self.cap {
            self.cap = sat_add(sat_mul(self.cap, 2), 1);
        }
        self.elems.insert(0, value);
        proof {
            assert(self@ =~= seq![value] + old(self)@);
        }
    }

    /// Removes and returns the front element. The buffer keeps its
    /// allocated slots.
    pub fn pop_front(&mut self) -> (r: T)
        requires
            old(self).wf(),
            old(self)@.len() > 0,
        ensures
            r == old(self)@[0],
            final(self)@ == old(self)@.subrange(1, old(self)@.len() as int),
            final(self).wf(),
            final(self).spec_capacity() == old(self).spec_capacity(),
    {
        let r = self.elems.remove(0);
        proof {
            assert(self@ =~= old(self)@.subrange(1, old(self)@.len() as int));
        }
        r
    }
}

impl<T: DataSize> DataSize for Deque<T> {
    /// Accounted exactly like a resizable array.
    open spec fn spec_heap_size(&self) -> nat {
        self.spec_capacity() * vstd::layout::size_of::<T>() + heap_sum(self@)
    }

    open spec fn spec_is_dynamic() -> bool {
        true
    }

    open spec fn spec_static_heap_size() -> nat {
        0
    }

    proof fn lemma_static_heap_size(&self) {
    }

    fn is_dynamic() -> bool {
        true
    }

    fn static_heap_size() -> usize {
        0
    }

    fn estimate_heap_size(&self) -> usize {
        let base = sat_mul(self.cap, core::mem::size_of::<T>());
        let used = occupied_cost(self.elems.as_slice());
        proof {
            lemma_saturated_add(
                self.spec_capacity() * vstd::layout::size_of::<T>(),
                heap_sum(self@),
            );
        }
        sat_add(base, used)
    }
}

} // verus!
