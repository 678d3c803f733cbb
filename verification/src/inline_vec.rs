//! A small vector with inline storage.
//!
//! Up to `inline_capacity` elements live inside the value itself, so
//! the buffer term is zero until the element count spills to a heap
//! buffer; once spilled, the buffer is charged like a growable
//! sequence's. Element footprints are charged identically in both
//! states.

use vstd::prelude::*;

use crate::arith::lemma_saturated_add;
use crate::arith::sat_add;
use crate::arith::sat_mul;
use crate::arith::saturated;
use crate::contract::heap_sum;
use crate::contract::occupied_cost;
use crate::contract::DataSize;

verus! {

/// A growable sequence whose first `inline_capacity` slots are inline
/// rather than on the heap.
pub struct InlineVec<T> {
    elems: Vec<T>,
    inline_cap: usize,
    cap: usize,
    spilled: bool,
}

impl<T> InlineVec<T> {
    /// The occupied elements, in order.
    pub closed spec fn view(&self) -> Seq<T> {
        self.elems@
    }

    /// The number of slots the value can hold without a heap buffer.
    pub closed spec fn spec_inline_capacity(&self) -> nat {
        self.inline_cap as nat
    }

    /// The number of currently allocated slots, inline or heap.
    pub closed spec fn spec_capacity(&self) -> nat {
        self.cap as nat
    }

    /// Whether the elements have moved to a heap buffer.
    pub closed spec fn spec_spilled(&self) -> bool {
        self.spilled
    }

    /// Capacity never falls below length, and while not spilled the
    /// capacity is exactly the inline capacity.
    pub open spec fn wf(&self) -> bool {
        self@.len() <= self.spec_capacity() && (!self.spec_spilled()
            ==> self.spec_capacity() == self.spec_inline_capacity())
    }

    /// An empty small vector with the given inline capacity, owning
    /// nothing on the heap.
    pub fn new(inline_capacity: usize) -> (r: InlineVec<T>)
        ensures
            r@ == Seq::<T>::empty(),
            r.spec_inline_capacity() == inline_capacity,
            r.spec_capacity() == inline_capacity,
            !r.spec_spilled(),
            r.wf(),
    {
        InlineVec { elems: Vec::new(), inline_cap: inline_capacity, cap: inline_capacity, spilled: false }
    }

    /// The number of occupied slots.
    pub fn len(&self) -> (n: usize)
        ensures
            n == self@.len(),
    {
        self.elems.len()
    }

    /// Whether the elements live in a heap buffer.
    pub fn spilled(&self) -> (b: bool)
        ensures
            b == self.spec_spilled(),
    {
        self.spilled
    }

    /// Appends an element; once the count exceeds the current capacity
    /// the vector spills to (or grows) a heap buffer.
    pub fn push(&mut self, value: T)
        requires
            old(self).wf(),
            old(self)@.len() < usize::MAX,
        ensures
            final(self)@ == old(self)@.push(value),
            final(self).spec_inline_capacity() == old(self).spec_inline_capacity(),
            final(self).spec_spilled() == (old(self).spec_spilled() || old(self)@.len()
                == old(self).spec_capacity()),
            final(self).spec_capacity() == if old(self)@.len() < old(self).spec_capacity() {
                old(self).spec_capacity()
            } else {
                saturated(2 * old(self).spec_capacity() + 1)
            },
            final(self).wf(),
    {
        if self.elems.len() == self.cap {
            self.cap = sat_add(sat_mul(self.cap, 2), 1);
            self.spilled = true;
        }
        self.elems.push(value);
    }
}

impl<T: DataSize> DataSize for InlineVec<T> {
    /// No buffer term while the elements fit inline; afterwards the
    /// whole heap buffer is charged, exactly as for a growable
    /// sequence. Occupied elements are charged in both states.
    open spec fn spec_heap_size(&self) -> nat {
        (if self.spec_spilled() {
            self.spec_capacity() * vstd::layout::size_of::<T>()
        } else {
            0
        }) + heap_sum(self@)
    }

    open spec fn spec_is_dynamic() -> bool {
        true
    }

    open spec fn spec_static_heap_size() -> nat {
        0
    }

    proof fn lemma_static_heap_size(&self) {
    }

    fn is_dynamic() -> bool {
        true
    }

    fn static_heap_size() -> usize {
        0
    }

    fn estimate_heap_size(&self) -> usize {
        let base: usize = if self.spilled {
            sat_mul(self.cap, core::mem::size_of::<T>())
        } else {
            0
        };
        let used = occupied_cost(self.elems.as_slice());
        proof {
            if self.spec_spilled() {
                lemma_saturated_add(
                    self.spec_capacity() * vstd::layout::size_of::<T>(),
                    heap_sum(self@),
                );
            } else {
                lemma_saturated_add(0, heap_sum(self@));
            }
        }
        sat_add(base, used)
    }
}

} // verus!
