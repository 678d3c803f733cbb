//! Fixed-size arrays.
//!
//! An array's slots live inline in the value itself, so no buffer term
//! is charged: the array owns exactly what its elements own. An array
//! of a non-dynamic element type is itself non-dynamic, with `N` times
//! the element's static contribution.

use vstd::prelude::*;

use crate::arith::lemma_saturated_mul;
use crate::arith::sat_mul;
use crate::contract::heap_sum;
use crate::contract::lemma_heap_sum_static;
use crate::contract::occupied_cost;
use crate::contract::DataSize;

verus! {

broadcast use vstd::array::group_array_axioms;

impl<T: DataSize, const N: usize> DataSize for [T; N] {
    open spec fn spec_heap_size(&self) -> nat {
        heap_sum(self@)
    }

    open spec fn spec_is_dynamic() -> bool {
        T::spec_is_dynamic()
    }

    open spec fn spec_static_heap_size() -> nat {
        (N as nat) * T::spec_static_heap_size()
    }

    proof fn lemma_static_heap_size(&self) {
        lemma_heap_sum_static::<T>(self@);
    }

    fn is_dynamic() -> bool {
        T::is_dynamic()
    }

    fn static_heap_size() -> usize {
        proof {
            lemma_saturated_mul(N as nat, T::spec_static_heap_size());
        }
        sat_mul(N, T::static_heap_size())
    }

    fn estimate_heap_size(&self) -> usize {
        occupied_cost(self.as_slice())
    }
}

} // verus!
