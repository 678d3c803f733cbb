//! The capability contract for sizeable types.
//!
//! A participating type publishes two compile-time facts — whether its
//! heap footprint can vary between values at runtime, and the fixed
//! contribution it makes when it cannot — and one runtime operation that
//! reports the value's current heap footprint. Aggregates use the facts
//! to charge `length × static contribution` in O(1) for containers of
//! non-dynamic elements, and fall back to a per-element traversal only
//! when the element type is dynamic.

use vstd::prelude::*;

use crate::arith::lemma_saturated_add;
use crate::arith::lemma_saturated_mul;
use crate::arith::sat_add;
use crate::arith::sat_mul;
use crate::arith::saturated;

verus! {

/// A type whose heap footprint can be estimated.
///
/// The estimate counts the bytes a value owns on the heap, excluding the
/// value's own inline representation. It is a best-effort figure: it may
/// ignore allocator bookkeeping, and shared ownership is deliberately
/// attributed to no one (see the shared-reference implementations).
pub trait DataSize {
    /// The heap bytes this value owns, as a mathematical total.
    spec fn spec_heap_size(&self) -> nat;

    /// Compile-time fact: can two values of this type own different
    /// amounts of heap memory at runtime?
    spec fn spec_is_dynamic() -> bool;

    /// Compile-time fact: the fixed heap contribution of every value of
    /// this type, meaningful when the type is not dynamic.
    spec fn spec_static_heap_size() -> nat;

    /// Every value of a non-dynamic type owns exactly the static
    /// contribution. This is what lets containers of non-dynamic elements
    /// be costed by a single multiplication instead of a traversal.
    proof fn lemma_static_heap_size(&self)
        requires
            !Self::spec_is_dynamic(),
        ensures
            self.spec_heap_size() == Self::spec_static_heap_size(),
    ;

    /// Runtime mirror of `spec_is_dynamic`.
    fn is_dynamic() -> (b: bool)
        ensures
            b == Self::spec_is_dynamic(),
    ;

    /// Runtime mirror of `spec_static_heap_size`, clamped to `usize`.
    fn static_heap_size() -> (n: usize)
        ensures
            n as nat == saturated(Self::spec_static_heap_size()),
    ;

    /// The value's current heap footprint, clamped to `usize`.
    ///
    /// Total for every value: it never panics and never mutates its
    /// argument.
    fn estimate_heap_size(&self) -> (n: usize)
        ensures
            n as nat == saturated(self.spec_heap_size()),
    ;
}

/// The heap footprint of a value, taking the O(1) shortcut for
/// non-dynamic types and traversing only when the type demands it.
pub fn data_size<T: DataSize>(v: &T) -> (n: usize)
    ensures
        n as nat == saturated(v.spec_heap_size()),
{
    if T::is_dynamic() {
        v.estimate_heap_size()
    } else {
        proof {
            v.lemma_static_heap_size();
        }
        T::static_heap_size()
    }
}

/// The summed heap footprint of a sequence of sizeable values.
pub open spec fn heap_sum<T: DataSize>(s: Seq<T>) -> nat
    decreases s.len(),
{
    if s.len() == 0 {
        0
    } else {
        heap_sum(s.drop_last()) + s.last().spec_heap_size()
    }
}

/// Appending one value adds exactly its own footprint to the sum.
pub proof fn lemma_heap_sum_push<T: DataSize>(s: Seq<T>, x: T)
    ensures
        heap_sum(s.push(x)) == heap_sum(s) + x.spec_heap_size(),
{
    assert(s.push(x).drop_last() =~= s);
}

/// Over a non-dynamic element type the sum collapses to
/// `length × static contribution`.
pub proof fn lemma_heap_sum_static<T: DataSize>(s: Seq<T>)
    requires
        !T::spec_is_dynamic(),
    ensures
        heap_sum(s) == s.len() * T::spec_static_heap_size(),
    decreases s.len(),
{
    if s.len() == 0 {
    } else {
        lemma_heap_sum_static(s.drop_last());
        s.last().lemma_static_heap_size();
        assert((s.len() - 1) * T::spec_static_heap_size() + T::spec_static_heap_size()
            == s.len() * T::spec_static_heap_size()) by (nonlinear_arith);
    }
}

/// Idempotence: estimating an unmutated value twice yields the same
/// result, because the contract pins every estimate to the value's
/// mathematical footprint.
pub proof fn lemma_estimate_idempotent<T: DataSize>(v: &T, n1: usize, n2: usize)
    requires
        n1 as nat == saturated(v.spec_heap_size()),
        n2 as nat == saturated(v.spec_heap_size()),
    ensures
        n1 == n2,
{
}

/// The cost of a buffer's occupied slots: a single multiplication when
/// the element type is non-dynamic, a per-element traversal otherwise.
/// Unoccupied slots hold no live values and are never visited.
pub fn occupied_cost<T: DataSize>(elems: &[T]) -> (n: usize)
    ensures
        n as nat == saturated(heap_sum(elems@)),
{
    if T::is_dynamic() {
        let mut acc: usize = 0;
        let mut i: usize = 0;
        while i < elems.len()
            invariant
                i <= elems@.len(),
                acc as nat == saturated(heap_sum(elems@.take(i as int))),
            decreases elems@.len() - i,
        {
            let e = elems[i].estimate_heap_size();
            proof {
                assert(elems@.take(i as int).push(elems@[i as int]) =~= elems@.take(
                    i as int + 1,
                ));
                lemma_heap_sum_push(elems@.take(i as int), elems@[i as int]);
                lemma_saturated_add(
                    heap_sum(elems@.take(i as int)),
                    elems@[i as int].spec_heap_size(),
                );
            }
            acc = sat_add(acc, e);
            i = i + 1;
        }
        proof {
            assert(elems@.take(elems@.len() as int) =~= elems@);
        }
        acc
    } else {
        proof {
            lemma_heap_sum_static::<T>(elems@);
            lemma_saturated_mul(elems@.len() as nat, T::spec_static_heap_size());
        }
        sat_mul(elems.len(), T::static_heap_size())
    }
}

/// The cost of `len` occupied tree or heap nodes: each entry is charged
/// its inline size (the node's slot on the heap) plus its own footprint.
pub fn counted_node_cost<T: DataSize>(elems: &[T]) -> (n: usize)
    ensures
        n as nat == saturated(
            elems@.len() * vstd::layout::size_of::<T>() + heap_sum(elems@),
        ),
{
    let slots = sat_mul(elems.len(), core::mem::size_of::<T>());
    let occupied = occupied_cost(elems);
    proof {
        lemma_saturated_add(
            elems@.len() * vstd::layout::size_of::<T>(),
            heap_sum(elems@),
        );
    }
    sat_add(slots, occupied)
}

} // verus!
