//! String-like owned buffers.
//!
//! A mutable owned string is charged its reserved capacity in bytes —
//! filesystem-path and OS-string buffers follow the same model — while
//! an exactly-sized owned string (a boxed string slice) has no slack
//! and is charged its byte length.

use vstd::prelude::*;

use crate::contract::DataSize;

verus! {

/// A mutable owned string or byte buffer: `capacity` reserved bytes,
/// the first `len` of them occupied.
pub struct HeapString {
    bytes: Vec<u8>,
    cap: usize,
}

impl HeapString {
    /// The occupied bytes.
    pub closed spec fn view(&self) -> Seq<u8> {
        self.bytes@
    }

    /// The number of reserved bytes.
    pub closed spec fn spec_capacity(&self) -> nat {
        self.cap as nat
    }

    /// Capacity never falls below length.
    pub open spec fn wf(&self) -> bool {
        self@.len() <= self.spec_capacity()
    }

    /// An empty string owning no buffer at all.
    pub fn new() -> (r: HeapString)
        ensures
            r@ == Seq::<u8>::empty(),
            r.spec_capacity() == 0,
            r.wf(),
    {
        HeapString { bytes: Vec::new(), cap: 0 }
    }

    /// Takes ownership of the given bytes with capacity equal to their
    /// number, as an exactly-sized conversion yields.
    pub fn from_bytes(bytes: Vec<u8>) -> (r: HeapString)
        ensures
            r@ == bytes@,
            r.spec_capacity() == bytes@.len(),
            r.wf(),
    {
        let cap = bytes.len();
        HeapString { bytes, cap }
    }

    /// The number of occupied bytes.
    pub fn len(&self) -> (n: usize)
        ensures
            n == self@.len(),
    {
        self.bytes.len()
    }

    /// The number of reserved bytes.
    pub fn capacity(&self) -> (n: usize)
        ensures
            n == self.spec_capacity(),
    {
        self.cap
    }

    /// Grows the buffer to hold exactly `additional` more bytes than
    /// are currently occupied, if it does not already.
    pub fn reserve_exact(&mut self, additional: usize)
        requires
            old(self).wf(),
            old(self)@.len() + additional <= usize::MAX,
        ensures
            final(self)@ == old(self)@,
            final(self).spec_capacity() == if old(self)@.len() + additional
                > old(self).spec_capacity() {
                (old(self)@.len() + additional) as nat
            } else {
                old(self).spec_capacity()
            },
            final(self).wf(),
    {
        let needed = self.bytes.len() + additional;
        if needed > self.cap {
            self.cap = needed;
        }
    }
}

impl DataSize for HeapString {
    /// The whole reserved buffer, in bytes.
    open spec fn spec_heap_size(&self) -> nat {
        self.spec_capacity()
    }

    open spec fn spec_is_dynamic() -> bool {
        true
    }

    open spec fn spec_static_heap_size() -> nat {
        0
    }

    proof fn lemma_static_heap_size(&self) {
    }

    fn is_dynamic() -> bool {
        true
    }

    fn static_heap_size() -> usize {
        0
    }

    fn estimate_heap_size(&self) -> usize {
        self.cap
    }
}

/// An exactly-sized owned string: a heap buffer of `len` bytes with no
/// slack, as a boxed string slice is.
pub struct OwnedStr {
    bytes: Vec<u8>,
}

impl OwnedStr {
    /// The owned bytes.
    pub closed spec fn view(&self) -> Seq<u8> {
        self.bytes@
    }

    /// Takes ownership of exactly the given bytes, with no slack.
    pub fn from_bytes(bytes: Vec<u8>) -> (r: OwnedStr)
        ensures
            r@ == bytes@,
    {
        OwnedStr { bytes }
    }

    /// The number of owned bytes.
    pub fn len(&self) -> (n: usize)
        ensures
            n == self@.len(),
    {
        self.bytes.len()
    }
}

impl DataSize for OwnedStr {
    /// Exactly the byte length of the content.
    open spec fn spec_heap_size(&self) -> nat {
        self@.len()
    }

    open spec fn spec_is_dynamic() -> bool {
        true
    }

    open spec fn spec_static_heap_size() -> nat {
        0
    }

    proof fn lemma_static_heap_size(&self) {
    }

    fn is_dynamic() -> bool {
        true
    }

    fn static_heap_size() -> usize {
        0
    }

    fn estimate_heap_size(&self) -> usize {
        self.bytes.len()
    }
}

} // verus!
