//! Trusted interface to the `smallvec` crate's small-buffer vector, the
//! collection this library stores queue-family indices and freshly
//! allocated command-buffer handles in.
//!
//! The vector sits in a private field of an opaque struct; its contents are
//! named by an uninterpreted sequence, and the wrappers below state, over
//! that name, what the crate's operations do to the contents.

use vstd::prelude::*;

use smallvec::SmallVec;

use crate::command_buffer::CommandBufferHandle;

verus! {

/// A buffer of queue-family indices, backed by `smallvec::SmallVec` so that
/// up to 64 indices live inline without a heap allocation.
#[verifier::external_body]
pub struct IndexVec {
    items: SmallVec<[i32; 64]>,
}

/// The queue-family indices held by an index buffer, in insertion order.
pub uninterp spec fn idx_contents(v: IndexVec) -> Seq<i32>;

impl IndexVec {
    /// Relies on `smallvec::SmallVec::new`: the new vector holds no
    /// elements.
    #[verifier::external_body]
    pub fn new() -> (v: IndexVec)
        ensures
            idx_contents(v) == Seq::<i32>::empty(),
    {
        IndexVec { items: SmallVec::new() }
    }

    /// Relies on `smallvec::SmallVec::push`: appends the value at the end
    /// and keeps the existing elements in place.
    #[verifier::external_body]
    pub fn push(&mut self, value: i32)
        ensures
            idx_contents(*final(self)) == idx_contents(*old(self)).push(value),
    {
        self.items.push(value)
    }

    /// Relies on `smallvec::SmallVec::len`: the number of stored elements.
    #[verifier::external_body]
    pub fn len(&self) -> (n: usize)
        ensures
            n == idx_contents(*self).len(),
    {
        self.items.len()
    }

    /// Relies on `smallvec`'s `Deref` impl: a slice over exactly the stored
    /// elements, in order.
    #[verifier::external_body]
    pub fn as_slice(&self) -> (s: &[i32])
        ensures
            s@ == idx_contents(*self),
    {
        std::ops::Deref::deref(&self.items)
    }
}

/// A buffer of freshly allocated command-buffer handles, backed by
/// `smallvec::SmallVec` so that up to 16 handles live inline without a heap
/// allocation.
#[verifier::external_body]
pub struct HandleVec {
    items: SmallVec<[CommandBufferHandle; 16]>,
}

/// The raw values of the command-buffer handles held by a handle buffer, in
/// insertion order.
pub uninterp spec fn handle_contents(v: HandleVec) -> Seq<u64>;

impl HandleVec {
    /// Relies on `smallvec::SmallVec::new`: the new vector holds no
    /// elements.
    #[verifier::external_body]
    pub fn new() -> (v: HandleVec)
        ensures
            handle_contents(v) == Seq::<u64>::empty(),
    {
        HandleVec { items: SmallVec::new() }
    }

    /// Relies on `smallvec::SmallVec::push`: appends the value at the end
    /// and keeps the existing elements in place.
    #[verifier::external_body]
    pub fn push(&mut self, value: CommandBufferHandle)
        ensures
            handle_contents(*final(self)) == handle_contents(*old(self)).push(value.0),
    {
        self.items.push(value)
    }

    /// Relies on `smallvec::SmallVec::len`: the number of stored elements.
    #[verifier::external_body]
    pub fn len(&self) -> (n: usize)
        ensures
            n == handle_contents(*self).len(),
    {
        self.items.len()
    }

    /// Relies on `smallvec`'s `Index` impl through its `Deref` to a slice:
    /// the element at the given position.
    #[verifier::external_body]
    pub fn get(&self, i: usize) -> (h: CommandBufferHandle)
        requires
            i < handle_contents(*self).len(),
        ensures
            h.0 == handle_contents(*self)[i as int],
    {
        self.items[i]
    }
}

} // verus!
