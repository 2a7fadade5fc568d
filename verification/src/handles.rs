//! The two capability handles and the constructor.
//!
//! A queue has exactly one producer-side mutator and one consumer-side
//! mutator. Each capability is a separate, non-duplicable value: neither
//! handle can be cloned or constructed outside this crate, so at most one
//! of each exists per call to [`new_queue`]. A handle mutates the shared
//! buffer through an exclusive borrow taken for the duration of one
//! operation; only the producer handle advances the write cursor, and only
//! the consumer handle advances the read cursor.

use core::marker::PhantomData;
use vstd::prelude::*;

use crate::model::spec_pop_state;
use crate::model::spec_pop_value;
use crate::model::spec_push;
use crate::model::spec_push_rejected;
use crate::ring::Buffer;

verus! {

/// The exclusive capability to insert values: the only way to advance the
/// write cursor. Not duplicable.
pub struct Producer<T> {
    marker: PhantomData<T>,
}

/// The exclusive capability to remove values: the only way to advance the
/// read cursor. Not duplicable.
pub struct Consumer<T> {
    marker: PhantomData<T>,
}

impl<T> Producer<T> {
    /// Attempts to insert one value, without blocking: `None` on success,
    /// and on a full buffer the value handed back unchanged. Forwards to
    /// the engine's push, and asks for the same one word of headroom on
    /// the write cursor.
    pub fn try_push(&self, buf: &mut Buffer<T>, val: T) -> (r: Option<T>)
        requires
            old(buf).wf(),
            old(buf).write_cursor() < usize::MAX,
        ensures
            final(buf).wf(),
            final(buf).capacity() == old(buf).capacity(),
            r == spec_push_rejected(old(buf)@, old(buf).capacity(), val),
            final(buf)@ == spec_push(old(buf)@, old(buf).capacity(), val),
            final(buf).read_cursor() == old(buf).read_cursor(),
            final(buf).write_cursor() == old(buf).write_cursor() + (
            if old(buf)@.len() < old(buf).capacity() {
                1int
            } else {
                0int
            }),
    {
        buf.try_push(val)
    }
}

impl<T> Consumer<T> {
    /// Attempts to remove the oldest value, without blocking: `None`
    /// signals an empty buffer, not an error. Forwards to the engine's
    /// pop.
    pub fn try_pop(&self, buf: &mut Buffer<T>) -> (r: Option<T>)
        requires
            old(buf).wf(),
        ensures
            final(buf).wf(),
            final(buf).capacity() == old(buf).capacity(),
            r == spec_pop_value(old(buf)@),
            final(buf)@ == spec_pop_state(old(buf)@),
            final(buf).write_cursor() == old(buf).write_cursor(),
            final(buf).read_cursor() == old(buf).read_cursor() + (
            if old(buf)@.len() > 0 {
                1int
            } else {
                0int
            }),
    {
        buf.try_pop()
    }
}

/// Creates a queue of the requested capacity, in elements: an empty shared
/// buffer with both cursors at zero, with its producer and consumer
/// capabilities. Storage for the slots is allocated here, once; if the
/// allocation cannot be satisfied the process terminates.
pub fn new_queue<T>(size: usize) -> (r: (Producer<T>, Consumer<T>, Buffer<T>))
    requires
        0 < size,
    ensures
        r.2.wf(),
        r.2@ == Seq::<T>::empty(),
        r.2.capacity() == size as nat,
        r.2.write_cursor() == 0,
        r.2.read_cursor() == 0,
{
    let buf = Buffer::<T>::with_capacity(size);
    (Producer { marker: PhantomData }, Consumer { marker: PhantomData }, buf)
}

} // verus!
