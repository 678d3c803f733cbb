//! Owning pointers and exactly-sized owned buffers.
//!
//! Boxing a value moves its inline representation onto the heap, so a
//! box owns the pointee's inline size plus whatever the pointee itself
//! owns. An exactly-sized owned slice has no capacity slack: its buffer
//! is charged per occupied slot only.

use vstd::prelude::*;

use crate::arith::lemma_saturated_add;
use crate::arith::sat_add;
use crate::arith::sat_mul;
use crate::contract::heap_sum;
use crate::contract::occupied_cost;
use crate::contract::DataSize;

verus! {

impl<T: DataSize> DataSize for Box<T> {
    /// The pointee's inline representation now lives on the heap, so it
    /// is charged in addition to the pointee's own footprint.
    open spec fn spec_heap_size(&self) -> nat {
        vstd::layout::size_of::<T>() + (**self).spec_heap_size()
    }

    open spec fn spec_is_dynamic() -> bool {
        T::spec_is_dynamic()
    }

    open spec fn spec_static_heap_size() -> nat {
        vstd::layout::size_of::<T>() + T::spec_static_heap_size()
    }

    proof fn lemma_static_heap_size(&self) {
        (**self).lemma_static_heap_size();
    }

    fn is_dynamic() -> bool {
        T::is_dynamic()
    }

    fn static_heap_size() -> usize {
        let s = core::mem::size_of::<T>();
        proof {
            lemma_saturated_add(vstd::layout::size_of::<T>(), T::spec_static_heap_size());
        }
        sat_add(s, T::static_heap_size())
    }

    fn estimate_heap_size(&self) -> usize {
        let s = core::mem::size_of::<T>();
        proof {
            lemma_saturated_add(vstd::layout::size_of::<T>(), (**self).spec_heap_size());
        }
        sat_add(s, (**self).estimate_heap_size())
    }
}

/// A boxed value owns the pointee's inline size plus what the pointee
/// owns standalone.
pub proof fn lemma_boxed_cost<T: DataSize>(b: &Box<T>)
    ensures
        b.spec_heap_size() == vstd::layout::size_of::<T>() + (**b).spec_heap_size(),
{
}

/// An exactly-sized owned slice: a heap buffer holding `len` elements
/// with no reserved slack, as a boxed slice does.
pub struct OwnedSlice<T> {
    elems: Vec<T>,
}

impl<T> OwnedSlice<T> {
    /// The elements in the buffer.
    pub closed spec fn view(&self) -> Seq<T> {
        self.elems@
    }

    /// Takes ownership of exactly the given elements, with no slack.
    pub fn from_vec(elems: Vec<T>) -> (r: OwnedSlice<T>)
        ensures
            r@ == elems@,
    {
        OwnedSlice { elems }
    }

    /// The number of elements.
    pub fn len(&self) -> (n: usize)
        ensures
            n == self@.len(),
    {
        self.elems.len()
    }
}

impl<T: DataSize> DataSize for OwnedSlice<T> {
    /// Per-slot charge for non-dynamic elements (their heap contribution
    /// is folded into the buffer's slots); per-element traversal
    /// otherwise.
    open spec fn spec_heap_size(&self) -> nat {
        if T::spec_is_dynamic() {
            heap_sum(self@)
        } else {
            self@.len() * vstd::layout::size_of::<T>()
        }
    }

    open spec fn spec_is_dynamic() -> bool {
        true
    }

    open spec fn spec_static_heap_size() -> nat {
        0
    }

    proof fn lemma_static_heap_size(&self) {
    }

    fn is_dynamic() -> bool {
        true
    }

    fn static_heap_size() -> usize {
        0
    }

    fn estimate_heap_size(&self) -> usize {
        if T::is_dynamic() {
            occupied_cost(self.elems.as_slice())
        } else {
            sat_mul(self.elems.len(), core::mem::size_of::<T>())
        }
    }
}

} // verus!
