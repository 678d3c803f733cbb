//! A copy-on-write value.
//!
//! In the borrowed state the value owns nothing — the referent's cost
//! belongs to its owner — and in the owned state it owns exactly what
//! the owned value owns, with no slack of its own.

use vstd::prelude::*;

use crate::contract::DataSize;

verus! {

/// A value that is either borrowed from elsewhere or owned in place.
pub enum CowValue<'a, T> {
    /// Borrowed: no ownership, so no heap contribution.
    Borrowed(&'a T),
    /// Owned: contributes exactly the owned value's own footprint.
    Owned(T),
}

impl<'a, T: DataSize> DataSize for CowValue<'a, T> {
    open spec fn spec_heap_size(&self) -> nat {
        match self {
            CowValue::Borrowed(_) => 0,
            CowValue::Owned(v) => v.spec_heap_size(),
        }
    }

    open spec fn spec_is_dynamic() -> bool {
        true
    }

    open spec fn spec_static_heap_size() -> nat {
        0
    }

    proof fn lemma_static_heap_size(&self) {
    }

    fn is_dynamic() -> bool {
        true
    }

    fn static_heap_size() -> usize {
        0
    }

    fn estimate_heap_size(&self) -> usize {
        match self {
            CowValue::Borrowed(_) => 0,
            CowValue::Owned(v) => v.estimate_heap_size(),
        }
    }
}

/// A borrowed copy-on-write value reports zero; an owned one reports
/// exactly what the owned value reports standalone.
pub proof fn lemma_cow_cost<'a, T: DataSize>(c: &CowValue<'a, T>)
    ensures
        c matches CowValue::Borrowed(_) ==> c.spec_heap_size() == 0,
        c matches CowValue::Owned(v) ==> c.spec_heap_size() == v.spec_heap_size(),
{
}

} // verus!
