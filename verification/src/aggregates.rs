//! Representative user-defined aggregates.
//!
//! Application structs and enums join the protocol by summing the heap
//! footprints of their counted fields: a type is dynamic as soon as any
//! counted field's type is, its static contribution is the sum of the
//! counted fields' static contributions, and a field or a whole variant
//! may be left out of both facts and the runtime sum ("skipped"). The
//! implementations here are hand-written to that obligation — the same
//! one any generated implementation must meet — and serve as worked
//! examples of it.

use vstd::prelude::*;

use crate::arith::lemma_saturated_add;
use crate::arith::sat_add;
use crate::contract::DataSize;
use crate::growable::ResizableArray;

verus! {

/// A struct with one scalar, one container, one optional box, and one
/// skipped field.
pub struct Example {
    pub count: usize,
    pub my_data: ResizableArray<MyStruct>,
    pub warning: Option<Box<u32>>,
    /// Skipped: excluded from the facts and the sum.
    pub skipped: Box<char>,
}

/// A single-scalar struct: non-dynamic, no heap contribution.
pub struct MyStruct {
    pub count: u64,
}

impl DataSize for MyStruct {
    open spec fn spec_heap_size(&self) -> nat {
        self.count.spec_heap_size()
    }

    open spec fn spec_is_dynamic() -> bool {
        u64::spec_is_dynamic()
    }

    open spec fn spec_static_heap_size() -> nat {
        u64::spec_static_heap_size()
    }

    proof fn lemma_static_heap_size(&self) {
        self.count.lemma_static_heap_size();
    }

    fn is_dynamic() -> bool {
        u64::is_dynamic()
    }

    fn static_heap_size() -> usize {
        u64::static_heap_size()
    }

    fn estimate_heap_size(&self) -> usize {
        self.count.estimate_heap_size()
    }
}

impl DataSize for Example {
    open spec fn spec_heap_size(&self) -> nat {
        self.count.spec_heap_size() + self.my_data.spec_heap_size()
            + self.warning.spec_heap_size()
    }

    open spec fn spec_is_dynamic() -> bool {
        usize::spec_is_dynamic() || ResizableArray::<MyStruct>::spec_is_dynamic()
            || Option::<Box<u32>>::spec_is_dynamic()
    }

    open spec fn spec_static_heap_size() -> nat {
        usize::spec_static_heap_size() + ResizableArray::<MyStruct>::spec_static_heap_size()
            + Option::<Box<u32>>::spec_static_heap_size()
    }

    proof fn lemma_static_heap_size(&self) {
    }

    fn is_dynamic() -> bool {
        usize::is_dynamic() || ResizableArray::<MyStruct>::is_dynamic()
            || Option::<Box<u32>>::is_dynamic()
    }

    fn static_heap_size() -> usize {
        0
    }

    fn estimate_heap_size(&self) -> usize {
        let a = self.count.estimate_heap_size();
        let b = self.my_data.estimate_heap_size();
        let c = self.warning.estimate_heap_size();
        proof {
            lemma_saturated_add(self.count.spec_heap_size(), self.my_data.spec_heap_size());
            lemma_saturated_add(
                self.count.spec_heap_size() + self.my_data.spec_heap_size(),
                self.warning.spec_heap_size(),
            );
        }
        sat_add(sat_add(a, b), c)
    }
}

/// An enum whose variants mix counted fields, skipped fields, and one
/// wholly skipped variant.
pub enum Foo {
    Bar,
    Baz {
        boxed: Box<u32>,
        nonheap: u8,
        /// Skipped: excluded from the facts and the sum.
        extra: Box<u128>,
    },
    /// The second field is skipped.
    Bert(ResizableArray<u32>, ResizableArray<u8>),
    /// Skipped as a whole: the variant contributes nothing.
    Skipped(ResizableArray<i32>),
}

impl DataSize for Foo {
    open spec fn spec_heap_size(&self) -> nat {
        match self {
            Foo::Bar => 0,
            Foo::Baz { boxed, nonheap, extra: _ } => boxed.spec_heap_size()
                + nonheap.spec_heap_size(),
            Foo::Bert(counted, _) => counted.spec_heap_size(),
            Foo::Skipped(_) => 0,
        }
    }

    open spec fn spec_is_dynamic() -> bool {
        true
    }

    open spec fn spec_static_heap_size() -> nat {
        0
    }

    proof fn lemma_static_heap_size(&self) {
    }

    fn is_dynamic() -> bool {
        true
    }

    fn static_heap_size() -> usize {
        0
    }

    fn estimate_heap_size(&self) -> usize {
        match self {
            Foo::Bar => 0,
            Foo::Baz { boxed, nonheap, extra: _ } => {
                proof {
                    lemma_saturated_add(boxed.spec_heap_size(), nonheap.spec_heap_size());
                }
                sat_add(boxed.estimate_heap_size(), nonheap.estimate_heap_size())
            },
            Foo::Bert(counted, _) => counted.estimate_heap_size(),
            Foo::Skipped(_) => 0,
        }
    }
}

/// A generic struct of two optional payloads and a scalar.
pub struct GenericExample<A, B> {
    pub a: Option<A>,
    pub b: Option<B>,
    pub c: u8,
}

impl<A: DataSize, B: DataSize> DataSize for GenericExample<A, B> {
    open spec fn spec_heap_size(&self) -> nat {
        self.a.spec_heap_size() + self.b.spec_heap_size() + self.c.spec_heap_size()
    }

    open spec fn spec_is_dynamic() -> bool {
        Option::<A>::spec_is_dynamic() || Option::<B>::spec_is_dynamic()
            || u8::spec_is_dynamic()
    }

    open spec fn spec_static_heap_size() -> nat {
        Option::<A>::spec_static_heap_size() + Option::<B>::spec_static_heap_size()
            + u8::spec_static_heap_size()
    }

    proof fn lemma_static_heap_size(&self) {
        self.a.lemma_static_heap_size();
        self.b.lemma_static_heap_size();
        self.c.lemma_static_heap_size();
    }

    fn is_dynamic() -> bool {
        Option::<A>::is_dynamic() || Option::<B>::is_dynamic() || u8::is_dynamic()
    }

    fn static_heap_size() -> usize {
        0
    }

    fn estimate_heap_size(&self) -> usize {
        let a = self.a.estimate_heap_size();
        let b = self.b.estimate_heap_size();
        let c = self.c.estimate_heap_size();
        proof {
            lemma_saturated_add(self.a.spec_heap_size(), self.b.spec_heap_size());
            lemma_saturated_add(
                self.a.spec_heap_size() + self.b.spec_heap_size(),
                self.c.spec_heap_size(),
            );
        }
        sat_add(sat_add(a, b), c)
    }
}

/// An enum whose single variant's only field is skipped: the type is
/// non-dynamic and contributes nothing.
pub enum Skipper {
    OnlyVariant {
        /// Skipped: excluded from the facts and the sum.
        skip_me: Box<u8>,
    },
}

impl DataSize for Skipper {
    open spec fn spec_heap_size(&self) -> nat {
        0
    }

    open spec fn spec_is_dynamic() -> bool {
        false
    }

    open spec fn spec_static_heap_size() -> nat {
        0
    }

    proof fn lemma_static_heap_size(&self) {
    }

    fn is_dynamic() -> bool {
        false
    }

    fn static_heap_size() -> usize {
        0
    }

    fn estimate_heap_size(&self) -> usize {
        0
    }
}

/// A non-dynamic struct owning one boxed scalar.
#[derive(Clone)]
pub struct Inner {
    pub value: Box<u64>,
    pub dummy: u8,
}

impl DataSize for Inner {
    open spec fn spec_heap_size(&self) -> nat {
        self.value.spec_heap_size() + self.dummy.spec_heap_size()
    }

    open spec fn spec_is_dynamic() -> bool {
        Box::<u64>::spec_is_dynamic() || u8::spec_is_dynamic()
    }

    open spec fn spec_static_heap_size() -> nat {
        Box::<u64>::spec_static_heap_size() + u8::spec_static_heap_size()
    }

    proof fn lemma_static_heap_size(&self) {
        self.value.lemma_static_heap_size();
        self.dummy.lemma_static_heap_size();
    }

    fn is_dynamic() -> bool {
        Box::<u64>::is_dynamic() || u8::is_dynamic()
    }

    fn static_heap_size() -> usize {
        proof {
            lemma_saturated_add(
                Box::<u64>::spec_static_heap_size(),
                u8::spec_static_heap_size(),
            );
        }
        sat_add(Box::<u64>::static_heap_size(), u8::static_heap_size())
    }

    fn estimate_heap_size(&self) -> usize {
        proof {
            lemma_saturated_add(self.value.spec_heap_size(), self.dummy.spec_heap_size());
        }
        sat_add(self.value.estimate_heap_size(), self.dummy.estimate_heap_size())
    }
}

/// A generic enum mixing counted fields, skipped fields, and a wholly
/// skipped variant.
pub enum GenericFoo<A, B, C, D> {
    Baz {
        boxed: Box<A>,
        /// Skipped: excluded from the facts and the sum.
        extra: Box<B>,
    },
    /// The middle field is skipped.
    Bert(ResizableArray<A>, ResizableArray<D>, Box<A>),
    /// Skipped as a whole: the variant contributes nothing.
    Skipped(ResizableArray<C>),
}

impl<A: DataSize, B, C, D> DataSize for GenericFoo<A, B, C, D> {
    open spec fn spec_heap_size(&self) -> nat {
        match self {
            GenericFoo::Baz { boxed, extra: _ } => boxed.spec_heap_size(),
            GenericFoo::Bert(counted, _, also) => counted.spec_heap_size()
                + also.spec_heap_size(),
            GenericFoo::Skipped(_) => 0,
        }
    }

    open spec fn spec_is_dynamic() -> bool {
        true
    }

    open spec fn spec_static_heap_size() -> nat {
        0
    }

    proof fn lemma_static_heap_size(&self) {
    }

    fn is_dynamic() -> bool {
        true
    }

    fn static_heap_size() -> usize {
        0
    }

    fn estimate_heap_size(&self) -> usize {
        match self {
            GenericFoo::Baz { boxed, extra: _ } => boxed.estimate_heap_size(),
            GenericFoo::Bert(counted, _, also) => {
                proof {
                    lemma_saturated_add(counted.spec_heap_size(), also.spec_heap_size());
                }
                sat_add(counted.estimate_heap_size(), also.estimate_heap_size())
            },
            GenericFoo::Skipped(_) => 0,
        }
    }
}

/// A generic newtype: it forwards its payload's facts unchanged.
pub struct NewtypeFoo<T>(pub T);

impl<T: DataSize> DataSize for NewtypeFoo<T> {
    open spec fn spec_heap_size(&self) -> nat {
        self.0.spec_heap_size()
    }

    open spec fn spec_is_dynamic() -> bool {
        T::spec_is_dynamic()
    }

    open spec fn spec_static_heap_size() -> nat {
        T::spec_static_heap_size()
    }

    proof fn lemma_static_heap_size(&self) {
        self.0.lemma_static_heap_size();
    }

    fn is_dynamic() -> bool {
        T::is_dynamic()
    }

    fn static_heap_size() -> usize {
        T::static_heap_size()
    }

    fn estimate_heap_size(&self) -> usize {
        self.0.estimate_heap_size()
    }
}

/// A generic tuple struct whose last field is skipped.
pub struct TupleFoo<T>(pub T, pub Box<u8>, pub Box<u32>);

impl<T: DataSize> DataSize for TupleFoo<T> {
    open spec fn spec_heap_size(&self) -> nat {
        self.0.spec_heap_size() + self.1.spec_heap_size()
    }

    open spec fn spec_is_dynamic() -> bool {
        T::spec_is_dynamic() || Box::<u8>::spec_is_dynamic()
    }

    open spec fn spec_static_heap_size() -> nat {
        T::spec_static_heap_size() + Box::<u8>::spec_static_heap_size()
    }

    proof fn lemma_static_heap_size(&self) {
        self.0.lemma_static_heap_size();
        self.1.lemma_static_heap_size();
    }

    fn is_dynamic() -> bool {
        T::is_dynamic() || Box::<u8>::is_dynamic()
    }

    fn static_heap_size() -> usize {
        proof {
            lemma_saturated_add(T::spec_static_heap_size(), Box::<u8>::spec_static_heap_size());
        }
        sat_add(T::static_heap_size(), Box::<u8>::static_heap_size())
    }

    fn estimate_heap_size(&self) -> usize {
        proof {
            lemma_saturated_add(self.0.spec_heap_size(), self.1.spec_heap_size());
        }
        sat_add(self.0.estimate_heap_size(), self.1.estimate_heap_size())
    }
}

/// A unit marker that always reports a fixed one-byte contribution;
/// handy for exercising the static fast path of containers.
pub struct OneByte;

impl DataSize for OneByte {
    open spec fn spec_heap_size(&self) -> nat {
        1
    }

    open spec fn spec_is_dynamic() -> bool {
        false
    }

    open spec fn spec_static_heap_size() -> nat {
        1
    }

    proof fn lemma_static_heap_size(&self) {
    }

    fn is_dynamic() -> bool {
        false
    }

    fn static_heap_size() -> usize {
        1
    }

    fn estimate_heap_size(&self) -> usize {
        1
    }
}

} // verus!
