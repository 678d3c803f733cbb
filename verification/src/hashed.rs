//! Hashed associative containers.
//!
//! An open-addressing hash table allocates a bucket array larger than
//! its length: below 8 requested slots the bucket count is rounded up
//! to 4 or 8, and from 8 on, `capacity × 8 / 7` is rounded up to the
//! next power of two. The table is charged one entry slot plus one
//! control byte per bucket — a deliberate lower bound that ignores
//! small constant alignment overhead. Entry footprints are charged on
//! top, for occupied entries only. A set is a map with a zero-size
//! value.

use vstd::prelude::*;

use crate::arith::lemma_saturated_add;
use crate::arith::sat_add;
use crate::arith::sat_mul;
use crate::arith::saturated;
use crate::contract::heap_sum;
use crate::contract::occupied_cost;
use crate::contract::DataSize;

verus! {

/// The smallest power of two no smaller than `x` (and 1 for `x <= 1`).
pub open spec fn spec_pow2_ceil(x: nat) -> nat
    decreases x,
{
    if x <= 1 {
        1
    } else {
        2 * spec_pow2_ceil(((x + 1) / 2) as nat)
    }
}

/// Rounding up to a power of two at most doubles, and never shrinks.
pub proof fn lemma_pow2_ceil_bound(x: nat)
    requires
        x >= 1,
    ensures
        x <= spec_pow2_ceil(x) <= 2 * x,
        x >= 2 ==> spec_pow2_ceil(x) <= 2 * (x - 1),
    decreases x,
{
    if x <= 1 {
    } else {
        let z = ((x + 1) / 2) as nat;
        lemma_pow2_ceil_bound(z);
        assert(2 * z <= x + 1);
        assert(x <= 2 * z);
    }
}

/// The rounding really lands on a power of two; together with the
/// bounds above it is the smallest one not below `x`, since only one
/// power of two can lie between `x` and `2x`.
pub proof fn lemma_pow2_ceil_is_power(x: nat) -> (e: nat)
    ensures
        spec_pow2_ceil(x) == vstd::arithmetic::power2::pow2(e),
    decreases x,
{
    if x <= 1 {
        vstd::arithmetic::power2::lemma2_to64();
        0
    } else {
        let e = lemma_pow2_ceil_is_power(((x + 1) / 2) as nat);
        vstd::arithmetic::power2::lemma_pow2_unfold(e + 1);
        e + 1
    }
}

/// Rounds up to the next power of two, matching `spec_pow2_ceil`.
fn pow2_ceil_u128(x: u128) -> (r: u128)
    requires
        x as nat <= u128::MAX as nat / 4,
    ensures
        r as nat == spec_pow2_ceil(x as nat),
    decreases x,
{
    if x <= 1 {
        1
    } else {
        let half = (x + 1) / 2;
        proof {
            lemma_pow2_ceil_bound(half as nat);
        }
        let r = pow2_ceil_u128(half);
        2 * r
    }
}

/// The bucket count an open-addressing table allocates for the given
/// requested capacity.
pub open spec fn spec_bucket_count(capacity: nat) -> nat {
    if capacity < 4 {
        4
    } else if capacity < 8 {
        8
    } else {
        spec_pow2_ceil(capacity * 8 / 7)
    }
}

/// The heap bytes of the bucket array itself: one entry slot plus one
/// control byte per bucket.
pub open spec fn spec_table_cost<E>(capacity: nat) -> nat {
    spec_bucket_count(capacity) * vstd::layout::size_of::<E>() + spec_bucket_count(capacity)
}

/// The bucket-array heap cost of a hash table with the given requested
/// capacity and entry type, clamped to `usize`.
pub fn estimate_hash_table<E>(capacity: usize) -> (n: usize)
    ensures
        n as nat == saturated(spec_table_cost::<E>(capacity as nat)),
{
    let entry = core::mem::size_of::<E>();
    if capacity < 4 {
        proof {
            lemma_saturated_add(4 * vstd::layout::size_of::<E>(), 4);
        }
        sat_add(sat_mul(4, entry), 4)
    } else if capacity < 8 {
        proof {
            lemma_saturated_add(8 * vstd::layout::size_of::<E>(), 8);
        }
        sat_add(sat_mul(8, entry), 8)
    } else {
        let raw: u128 = (capacity as u128) * 8 / 7;
        proof {
            lemma_pow2_ceil_bound(raw as nat);
        }
        let buckets = pow2_ceil_u128(raw);
        if buckets > usize::MAX as u128 {
            // More buckets than a usize can count: the clamped total is
            // already pinned at the ceiling by the control bytes alone.
            usize::MAX
        } else {
            let b = buckets as usize;
            proof {
                lemma_saturated_add(
                    spec_bucket_count(capacity as nat) * vstd::layout::size_of::<E>(),
                    spec_bucket_count(capacity as nat),
                );
            }
            sat_add(sat_mul(b, entry), b)
        }
    }
}

/// A hash map, held as its entries plus the capacity it was asked for.
pub struct HashedMap<K, V> {
    entries: Vec<(K, V)>,
    cap: usize,
}

impl<K, V> HashedMap<K, V> {
    /// The entries, as key-value pairs.
    pub closed spec fn view(&self) -> Seq<(K, V)> {
        self.entries@
    }

    /// The requested capacity the bucket array is sized for.
    pub closed spec fn spec_capacity(&self) -> nat {
        self.cap as nat
    }

    /// Capacity never falls below length.
    pub open spec fn wf(&self) -> bool {
        self@.len() <= self.spec_capacity()
    }

    /// An empty map with requested capacity zero. Note that even this
    /// owns a minimal bucket array.
    pub fn new() -> (r: HashedMap<K, V>)
        ensures
            r@ == Seq::<(K, V)>::empty(),
            r.spec_capacity() == 0,
            r.wf(),
    {
        HashedMap { entries: Vec::new(), cap: 0 }
    }

    /// An empty map sized for the given number of entries.
    pub fn with_capacity(capacity: usize) -> (r: HashedMap<K, V>)
        ensures
            r@ == Seq::<(K, V)>::empty(),
            r.spec_capacity() == capacity,
            r.wf(),
    {
        HashedMap { entries: Vec::new(), cap: capacity }
    }

    /// Adds an entry, growing the requested capacity to cover it.
    /// Callers keep keys distinct; the estimate does not depend on it.
    pub fn insert(&mut self, key: K, value: V)
        requires
            old(self).wf(),
            old(self)@.len() < usize::MAX,
        ensures
            final(self)@ == old(self)@.push((key, value)),
            final(self).spec_capacity() == if old(self)@.len() + 1 > old(self).spec_capacity() {
                (old(self)@.len() + 1) as nat
            } else {
                old(self).spec_capacity()
            },
            final(self).wf(),
    {
        self.entries.push((key, value));
        if self.entries.len() > self.cap {
            self.cap = self.entries.len();
        }
    }

    /// The number of entries.
    pub fn len(&self) -> (n: usize)
        ensures
            n == self@.len(),
    {
        self.entries.len()
    }
}

impl<K: DataSize, V: DataSize> DataSize for HashedMap<K, V> {
    /// The bucket array, sized from the requested capacity, plus the
    /// occupied entries' own footprints.
    open spec fn spec_heap_size(&self) -> nat {
        spec_table_cost::<(K, V)>(self.spec_capacity()) + heap_sum(self@)
    }

    open spec fn spec_is_dynamic() -> bool {
        true
    }

    open spec fn spec_static_heap_size() -> nat {
        0
    }

    proof fn lemma_static_heap_size(&self) {
    }

    fn is_dynamic() -> bool {
        true
    }

    fn static_heap_size() -> usize {
        0
    }

    fn estimate_heap_size(&self) -> usize {
        let table = estimate_hash_table::<(K, V)>(self.cap);
        let used = occupied_cost(self.entries.as_slice());
        proof {
            lemma_saturated_add(
                spec_table_cost::<(K, V)>(self.spec_capacity()),
                heap_sum(self@),
            );
        }
        sat_add(table, used)
    }
}

/// A hash set: accounted as a hash map with a zero-size value.
pub struct HashedSet<T> {
    elems: Vec<T>,
    cap: usize,
}

impl<T> HashedSet<T> {
    /// The elements.
    pub closed spec fn view(&self) -> Seq<T> {
        self.elems@
    }

    /// The requested capacity the bucket array is sized for.
    pub closed spec fn spec_capacity(&self) -> nat {
        self.cap as nat
    }

    /// Capacity never falls below length.
    pub open spec fn wf(&self) -> bool {
        self@.len() <= self.spec_capacity()
    }

    /// An empty set with requested capacity zero.
    pub fn new() -> (r: HashedSet<T>)
        ensures
            r@ == Seq::<T>::empty(),
            r.spec_capacity() == 0,
            r.wf(),
    {
        HashedSet { elems: Vec::new(), cap: 0 }
    }

    /// An empty set sized for the given number of elements.
    pub fn with_capacity(capacity: usize) -> (r: HashedSet<T>)
        ensures
            r@ == Seq::<T>::empty(),
            r.spec_capacity() == capacity,
            r.wf(),
    {
        HashedSet { elems: Vec::new(), cap: capacity }
    }

    /// Adds an element, growing the requested capacity to cover it.
    /// Callers keep elements distinct; the estimate does not depend on
    /// it.
    pub fn insert(&mut self, value: T)
        requires
            old(self).wf(),
            old(self)@.len() < usize::MAX,
        ensures
            final(self)@ == old(self)@.push(value),
            final(self).spec_capacity() == if old(self)@.len() + 1 > old(self).spec_capacity() {
                (old(self)@.len() + 1) as nat
            } else {
                old(self).spec_capacity()
            },
            final(self).wf(),
    {
        self.elems.push(value);
        if self.elems.len() > self.cap {
            self.cap = self.elems.len();
        }
    }

    /// The number of elements.
    pub fn len(&self) -> (n: usize)
        ensures
            n == self@.len(),
    {
        self.elems.len()
    }
}

impl<T: DataSize> DataSize for HashedSet<T> {
    /// The bucket array of a table of `(element, ())` entries, plus the
    /// occupied elements' own footprints.
    open spec fn spec_heap_size(&self) -> nat {
        spec_table_cost::<(T, ())>(self.spec_capacity()) + heap_sum(self@)
    }

    open spec fn spec_is_dynamic() -> bool {
        true
    }

    open spec fn spec_static_heap_size() -> nat {
        0
    }

    proof fn lemma_static_heap_size(&self) {
    }

    fn is_dynamic() -> bool {
        true
    }

    fn static_heap_size() -> usize {
        0
    }

    fn estimate_heap_size(&self) -> usize {
        let table = estimate_hash_table::<(T, ())>(self.cap);
        let used = occupied_cost(self.elems.as_slice());
        proof {
            lemma_saturated_add(
                spec_table_cost::<(T, ())>(self.spec_capacity()),
                heap_sum(self@),
            );
        }
        sat_add(table, used)
    }
}

} // verus!
