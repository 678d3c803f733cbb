//! Implementations for scalars, unit, pairs, and optional values.
//!
//! Scalars own nothing on the heap: they are non-dynamic with a static
//! contribution of zero. A pair owns what its two components own. An
//! optional value owns what its payload owns, and is dynamic as soon as
//! a present payload could contribute anything, since an absent one
//! contributes nothing.

use vstd::prelude::*;

use crate::arith::lemma_saturated_add;
use crate::arith::sat_add;
use crate::contract::DataSize;

verus! {

impl DataSize for bool {
    open spec fn spec_heap_size(&self) -> nat {
        0
    }

    open spec fn spec_is_dynamic() -> bool {
        false
    }

    open spec fn spec_static_heap_size() -> nat {
        0
    }

    proof fn lemma_static_heap_size(&self) {
    }

    fn is_dynamic() -> bool {
        false
    }

    fn static_heap_size() -> usize {
        0
    }

    fn estimate_heap_size(&self) -> usize {
        0
    }
}

impl DataSize for char {
    open spec fn spec_heap_size(&self) -> nat {
        0
    }

    open spec fn spec_is_dynamic() -> bool {
        false
    }

    open spec fn spec_static_heap_size() -> nat {
        0
    }

    proof fn lemma_static_heap_size(&self) {
    }

    fn is_dynamic() -> bool {
        false
    }

    fn static_heap_size() -> usize {
        0
    }

    fn estimate_heap_size(&self) -> usize {
        0
    }
}

impl DataSize for u8 {
    open spec fn spec_heap_size(&self) -> nat {
        0
    }

    open spec fn spec_is_dynamic() -> bool {
        false
    }

    open spec fn spec_static_heap_size() -> nat {
        0
    }

    proof fn lemma_static_heap_size(&self) {
    }

    fn is_dynamic() -> bool {
        false
    }

    fn static_heap_size() -> usize {
        0
    }

    fn estimate_heap_size(&self) -> usize {
        0
    }
}

impl DataSize for u16 {
    open spec fn spec_heap_size(&self) -> nat {
        0
    }

    open spec fn spec_is_dynamic() -> bool {
        false
    }

    open spec fn spec_static_heap_size() -> nat {
        0
    }

    proof fn lemma_static_heap_size(&self) {
    }

    fn is_dynamic() -> bool {
        false
    }

    fn static_heap_size() -> usize {
        0
    }

    fn estimate_heap_size(&self) -> usize {
        0
    }
}

impl DataSize for u32 {
    open spec fn spec_heap_size(&self) -> nat {
        0
    }

    open spec fn spec_is_dynamic() -> bool {
        false
    }

    open spec fn spec_static_heap_size() -> nat {
        0
    }

    proof fn lemma_static_heap_size(&self) {
    }

    fn is_dynamic() -> bool {
        false
    }

    fn static_heap_size() -> usize {
        0
    }

    fn estimate_heap_size(&self) -> usize {
        0
    }
}

impl DataSize for u64 {
    open spec fn spec_heap_size(&self) -> nat {
        0
    }

    open spec fn spec_is_dynamic() -> bool {
        false
    }

    open spec fn spec_static_heap_size() -> nat {
        0
    }

    proof fn lemma_static_heap_size(&self) {
    }

    fn is_dynamic() -> bool {
        false
    }

    fn static_heap_size() -> usize {
        0
    }

    fn estimate_heap_size(&self) -> usize {
        0
    }
}

impl DataSize for u128 {
    open spec fn spec_heap_size(&self) -> nat {
        0
    }

    open spec fn spec_is_dynamic() -> bool {
        false
    }

    open spec fn spec_static_heap_size() -> nat {
        0
    }

    proof fn lemma_static_heap_size(&self) {
    }

    fn is_dynamic() -> bool {
        false
    }

    fn static_heap_size() -> usize {
        0
    }

    fn estimate_heap_size(&self) -> usize {
        0
    }
}

impl DataSize for usize {
    open spec fn spec_heap_size(&self) -> nat {
        0
    }

    open spec fn spec_is_dynamic() -> bool {
        false
    }

    open spec fn spec_static_heap_size() -> nat {
        0
    }

    proof fn lemma_static_heap_size(&self) {
    }

    fn is_dynamic() -> bool {
        false
    }

    fn static_heap_size() -> usize {
        0
    }

    fn estimate_heap_size(&self) -> usize {
        0
    }
}

impl DataSize for i8 {
    open spec fn spec_heap_size(&self) -> nat {
        0
    }

    open spec fn spec_is_dynamic() -> bool {
        false
    }

    open spec fn spec_static_heap_size() -> nat {
        0
    }

    proof fn lemma_static_heap_size(&self) {
    }

    fn is_dynamic() -> bool {
        false
    }

    fn static_heap_size() -> usize {
        0
    }

    fn estimate_heap_size(&self) -> usize {
        0
    }
}

impl DataSize for i16 {
    open spec fn spec_heap_size(&self) -> nat {
        0
    }

    open spec fn spec_is_dynamic() -> bool {
        false
    }

    open spec fn spec_static_heap_size() -> nat {
        0
    }

    proof fn lemma_static_heap_size(&self) {
    }

    fn is_dynamic() -> bool {
        false
    }

    fn static_heap_size() -> usize {
        0
    }

    fn estimate_heap_size(&self) -> usize {
        0
    }
}

impl DataSize for i32 {
    open spec fn spec_heap_size(&self) -> nat {
        0
    }

    open spec fn spec_is_dynamic() -> bool {
        false
    }

    open spec fn spec_static_heap_size() -> nat {
        0
    }

    proof fn lemma_static_heap_size(&self) {
    }

    fn is_dynamic() -> bool {
        false
    }

    fn static_heap_size() -> usize {
        0
    }

    fn estimate_heap_size(&self) -> usize {
        0
    }
}

impl DataSize for i64 {
    open spec fn spec_heap_size(&self) -> nat {
        0
    }

    open spec fn spec_is_dynamic() -> bool {
        false
    }

    open spec fn spec_static_heap_size() -> nat {
        0
    }

    proof fn lemma_static_heap_size(&self) {
    }

    fn is_dynamic() -> bool {
        false
    }

    fn static_heap_size() -> usize {
        0
    }

    fn estimate_heap_size(&self) -> usize {
        0
    }
}

impl DataSize for i128 {
    open spec fn spec_heap_size(&self) -> nat {
        0
    }

    open spec fn spec_is_dynamic() -> bool {
        false
    }

    open spec fn spec_static_heap_size() -> nat {
        0
    }

    proof fn lemma_static_heap_size(&self) {
    }

    fn is_dynamic() -> bool {
        false
    }

    fn static_heap_size() -> usize {
        0
    }

    fn estimate_heap_size(&self) -> usize {
        0
    }
}

impl DataSize for isize {
    open spec fn spec_heap_size(&self) -> nat {
        0
    }

    open spec fn spec_is_dynamic() -> bool {
        false
    }

    open spec fn spec_static_heap_size() -> nat {
        0
    }

    proof fn lemma_static_heap_size(&self) {
    }

    fn is_dynamic() -> bool {
        false
    }

    fn static_heap_size() -> usize {
        0
    }

    fn estimate_heap_size(&self) -> usize {
        0
    }
}

impl DataSize for () {
    open spec fn spec_heap_size(&self) -> nat {
        0
    }

    open spec fn spec_is_dynamic() -> bool {
        false
    }

    open spec fn spec_static_heap_size() -> nat {
        0
    }

    proof fn lemma_static_heap_size(&self) {
    }

    fn is_dynamic() -> bool {
        false
    }

    fn static_heap_size() -> usize {
        0
    }

    fn estimate_heap_size(&self) -> usize {
        0
    }
}

impl<A: DataSize, B: DataSize> DataSize for (A, B) {
    open spec fn spec_heap_size(&self) -> nat {
        self.0.spec_heap_size() + self.1.spec_heap_size()
    }

    open spec fn spec_is_dynamic() -> bool {
        A::spec_is_dynamic() || B::spec_is_dynamic()
    }

    open spec fn spec_static_heap_size() -> nat {
        A::spec_static_heap_size() + B::spec_static_heap_size()
    }

    proof fn lemma_static_heap_size(&self) {
        self.0.lemma_static_heap_size();
        self.1.lemma_static_heap_size();
    }

    fn is_dynamic() -> bool {
        A::is_dynamic() || B::is_dynamic()
    }

    fn static_heap_size() -> usize {
        proof {
            lemma_saturated_add(A::spec_static_heap_size(), B::spec_static_heap_size());
        }
        sat_add(A::static_heap_size(), B::static_heap_size())
    }

    fn estimate_heap_size(&self) -> usize {
        proof {
            lemma_saturated_add(self.0.spec_heap_size(), self.1.spec_heap_size());
        }
        sat_add(self.0.estimate_heap_size(), self.1.estimate_heap_size())
    }
}

impl<T: DataSize> DataSize for Option<T> {
    open spec fn spec_heap_size(&self) -> nat {
        match self {
            Option::None => 0,
            Option::Some(v) => v.spec_heap_size(),
        }
    }

    open spec fn spec_is_dynamic() -> bool {
        T::spec_is_dynamic() || T::spec_static_heap_size() > 0
    }

    open spec fn spec_static_heap_size() -> nat {
        0
    }

    proof fn lemma_static_heap_size(&self) {
        match self {
            Option::None => {
            },
            Option::Some(v) => {
                v.lemma_static_heap_size();
            },
        }
    }

    fn is_dynamic() -> bool {
        T::is_dynamic() || T::static_heap_size() > 0
    }

    fn static_heap_size() -> usize {
        0
    }

    fn estimate_heap_size(&self) -> usize {
        match self {
            Option::None => 0,
            Option::Some(v) => v.estimate_heap_size(),
        }
    }
}

} // verus!
