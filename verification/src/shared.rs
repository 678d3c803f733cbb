//! Non-owning references: shared and weak pointers.
//!
//! A referent reachable through shared ownership is attributed to no
//! one: every shared or weak reference reports zero unconditionally.
//! This undercounts shared data by design, in exchange for making the
//! accounting safe on any tree-shaped ownership graph — no reference is
//! traversed, so no cycle can be entered and nothing is counted twice.

use vstd::prelude::*;

use crate::contract::DataSize;

verus! {

impl<T> DataSize for std::rc::Rc<T> {
    open spec fn spec_heap_size(&self) -> nat {
        0
    }

    open spec fn spec_is_dynamic() -> bool {
        false
    }

    open spec fn spec_static_heap_size() -> nat {
        0
    }

    proof fn lemma_static_heap_size(&self) {
    }

    fn is_dynamic() -> bool {
        false
    }

    fn static_heap_size() -> usize {
        0
    }

    fn estimate_heap_size(&self) -> usize {
        0
    }
}

impl<T> DataSize for std::sync::Arc<T> {
    open spec fn spec_heap_size(&self) -> nat {
        0
    }

    open spec fn spec_is_dynamic() -> bool {
        false
    }

    open spec fn spec_static_heap_size() -> nat {
        0
    }

    proof fn lemma_static_heap_size(&self) {
    }

    fn is_dynamic() -> bool {
        false
    }

    fn static_heap_size() -> usize {
        0
    }

    fn estimate_heap_size(&self) -> usize {
        0
    }
}

/// A weak counterpart of `Rc`. The held `std::rc::Weak` is opaque to
/// the verifier — its generics cannot be declared here — which costs
/// nothing: the accounting never reads the referent.
#[verifier::external_body]
#[verifier::reject_recursive_types(T)]
pub struct WeakRc<T> {
    inner: std::rc::Weak<T>,
}

impl<T> WeakRc<T> {
    /// Relies on std::rc::Rc::downgrade: a non-owning handle to the
    /// same allocation.
    #[verifier::external_body]
    pub fn downgrade(rc: &std::rc::Rc<T>) -> (r: WeakRc<T>) {
        WeakRc { inner: std::rc::Rc::downgrade(rc) }
    }
}

/// A weak counterpart of `Arc`, held opaquely as above.
#[verifier::external_body]
#[verifier::reject_recursive_types(T)]
pub struct WeakArc<T> {
    inner: std::sync::Weak<T>,
}

impl<T> WeakArc<T> {
    /// Relies on std::sync::Arc::downgrade: a non-owning handle to the
    /// same allocation.
    #[verifier::external_body]
    pub fn downgrade(arc: &std::sync::Arc<T>) -> (r: WeakArc<T>) {
        WeakArc { inner: std::sync::Arc::downgrade(arc) }
    }
}

impl<T> DataSize for WeakRc<T> {
    open spec fn spec_heap_size(&self) -> nat {
        0
    }

    open spec fn spec_is_dynamic() -> bool {
        false
    }

    open spec fn spec_static_heap_size() -> nat {
        0
    }

    proof fn lemma_static_heap_size(&self) {
    }

    fn is_dynamic() -> bool {
        false
    }

    fn static_heap_size() -> usize {
        0
    }

    fn estimate_heap_size(&self) -> usize {
        0
    }
}

impl<T> DataSize for WeakArc<T> {
    open spec fn spec_heap_size(&self) -> nat {
        0
    }

    open spec fn spec_is_dynamic() -> bool {
        false
    }

    open spec fn spec_static_heap_size() -> nat {
        0
    }

    proof fn lemma_static_heap_size(&self) {
    }

    fn is_dynamic() -> bool {
        false
    }

    fn static_heap_size() -> usize {
        0
    }

    fn estimate_heap_size(&self) -> usize {
        0
    }
}

/// A shared or weak reference always reports zero, whatever its
/// referent would report standalone.
pub proof fn lemma_nonowning_reports_zero<T>(
    rc: &std::rc::Rc<T>,
    arc: &std::sync::Arc<T>,
    weak_rc: &WeakRc<T>,
    weak_arc: &WeakArc<T>,
)
    ensures
        rc.spec_heap_size() == 0,
        arc.spec_heap_size() == 0,
        weak_rc.spec_heap_size() == 0,
        weak_arc.spec_heap_size() == 0,
{
}

} // verus!
