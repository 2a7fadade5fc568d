//! The ring-buffer engine: fixed contiguous storage and a pair of
//! monotonically increasing cursors.
//!
//! The occupied region is the logical window `[read_ptr, write_ptr)`; the
//! value at logical index `i` sits in the physical slot `i % size`. A slot
//! inside the window always holds a value; a slot outside it is vacant. The
//! emptiness test is bare cursor equality, the fullness test is bare
//! equality of the cursor difference with the capacity: each side advances
//! its cursor by exactly one per successful operation, so both are always
//! reached exactly.

use vstd::arithmetic::div_mod::lemma_add_mod_noop;
use vstd::arithmetic::div_mod::lemma_mod_bound;
use vstd::arithmetic::div_mod::lemma_mod_sub_multiples_vanish;
use vstd::arithmetic::div_mod::lemma_small_mod;
use vstd::pervasive::VecAdditionalExecFns;
use vstd::prelude::*;

use crate::model::spec_pop_state;
use crate::model::spec_pop_value;
use crate::model::spec_push;
use crate::model::spec_push_rejected;

verus! {

/// Two logical indices that lie strictly less than `s` apart land in
/// distinct physical slots of a ring with `s` slots.
proof fn lemma_window_slots_distinct(a: int, d: int, s: int)
    requires
        0 <= a,
        0 < d < s,
    ensures
        a % s != (a + d) % s,
{
    lemma_mod_bound(a, s);
    lemma_small_mod(d as nat, s as nat);
    lemma_add_mod_noop(a, d, s);
    let x = a % s;
    if x + d < s {
        lemma_small_mod((x + d) as nat, s as nat);
    } else {
        lemma_mod_sub_multiples_vanish(x + d, s);
        lemma_small_mod((x + d - s) as nat, s as nat);
    }
}

/// The shared buffer: ring storage plus the cursor pair.
///
/// `write_ptr` grows only through a successful push, `read_ptr` only
/// through a successful pop, each by exactly one. The contents, as a
/// mathematical value, are the sequence of stored values from the oldest
/// to the newest: see [`View`].
pub struct Buffer<T> {
    storage: Vec<Option<T>>,
    size: usize,
    write_ptr: usize,
    read_ptr: usize,
}

impl<T> Buffer<T> {
    /// The slot holding the value at offset `k` from the front of the
    /// occupied window.
    spec fn stored(&self, k: int) -> Option<T> {
        self.storage@[(self.read_ptr + k) % (self.size as int)]
    }

    /// The fixed capacity: how many values the buffer can hold at once.
    pub closed spec fn capacity(&self) -> nat {
        self.size as nat
    }

    /// The write cursor: how many values have ever been pushed.
    pub closed spec fn write_cursor(&self) -> nat {
        self.write_ptr as nat
    }

    /// The read cursor: how many values have ever been popped.
    pub closed spec fn read_cursor(&self) -> nat {
        self.read_ptr as nat
    }

    /// Well-formedness: the storage holds exactly `capacity` slots, the
    /// cursors delimit a window of at most `capacity` values, and every
    /// slot inside the window holds a value.
    pub closed spec fn wf(&self) -> bool {
        &&& 0 < self.size
        &&& self.storage.len() == self.size
        &&& self.read_ptr <= self.write_ptr
        &&& self.write_ptr - self.read_ptr <= self.size
        &&& forall|k: int|
            0 <= k < self.write_ptr - self.read_ptr ==> (#[trigger] self.stored(k)) is Some
    }

    /// Allocates the ring storage: exactly `size` vacant slots, both
    /// cursors zero.
    pub(crate) fn with_capacity(size: usize) -> (b: Buffer<T>)
        requires
            0 < size,
        ensures
            b.wf(),
            b@ == Seq::<T>::empty(),
            b.capacity() == size as nat,
            b.write_cursor() == 0,
            b.read_cursor() == 0,
    {
        let mut storage: Vec<Option<T>> = Vec::new();
        let mut i: usize = 0;
        while i < size
            invariant
                i <= size,
                storage@.len() == i as nat,
            decreases size - i,
        {
            storage.push(None);
            i = i + 1;
        }
        let b = Buffer { storage, size, write_ptr: 0, read_ptr: 0 };
        proof {
            assert(b@ =~= Seq::<T>::empty());
        }
        b
    }
}

impl<T> View for Buffer<T> {
    type V = Seq<T>;

    /// The contents: the values of the occupied window, oldest first.
    closed spec fn view(&self) -> Seq<T> {
        Seq::new((self.write_ptr - self.read_ptr) as nat, |k: int| self.stored(k)->0)
    }
}

impl<T> Buffer<T> {
    /// Attempts to insert one value without blocking.
    ///
    /// On a full buffer the value is handed back unchanged and nothing
    /// moves. Otherwise the value goes into the slot at the write cursor
    /// (modulo capacity), the write cursor advances by exactly one, and
    /// nothing is returned.
    ///
    /// The cursors are machine words and each advances by one per
    /// successful operation, so a push asks for one word of headroom on
    /// the write cursor; a fresh buffer starts at zero and a caller that
    /// counts its pushes keeps the headroom for any feasible workload.
    pub fn try_push(&mut self, val: T) -> (r: Option<T>)
        requires
            old(self).wf(),
            old(self).write_cursor() < usize::MAX,
        ensures
            final(self).wf(),
            final(self).capacity() == old(self).capacity(),
            r == spec_push_rejected(old(self)@, old(self).capacity(), val),
            final(self)@ == spec_push(old(self)@, old(self).capacity(), val),
            final(self).read_cursor() == old(self).read_cursor(),
            final(self).write_cursor() == old(self).write_cursor() + (
            if old(self)@.len() < old(self).capacity() {
                1int
            } else {
                0int
            }),
    {
        let len = self.write_ptr - self.read_ptr;
        if len == self.size {
            return Some(val);
        }
        let idx = self.write_ptr % self.size;
        self.storage.set(idx, Some(val));
        self.write_ptr = self.write_ptr + 1;
        proof {
            let g = *old(self);
            let s = g.size as int;
            let r0 = g.read_ptr as int;
            let w = g.write_ptr as int;
            let n = w - r0;
            lemma_mod_bound(w, s);
            assert forall|k: int| 0 <= k < n implies self.stored(k) == g.stored(k) by {
                lemma_window_slots_distinct(r0 + k, n - k, s);
                lemma_mod_bound(r0 + k, s);
                assert((r0 + k) + (n - k) == w);
            };
            assert(self.stored(n) == Some(val));
            assert forall|k: int| 0 <= k < n + 1 implies (#[trigger] self.stored(k)) is Some by {
                if k < n {
                    assert(g.stored(k) is Some);
                }
            };
            assert(self.wf());
            assert(self@ =~= g@.push(val));
        }
        None
    }

    /// The cursor pair delimits the contents: the read cursor never
    /// passes the write cursor, their difference is exactly the number of
    /// values held, and that number never exceeds the capacity.
    pub proof fn lemma_cursor_invariants(&self)
        requires
            self.wf(),
        ensures
            self.read_cursor() <= self.write_cursor(),
            self.write_cursor() - self.read_cursor() == self@.len(),
            self@.len() <= self.capacity(),
    {
    }

    /// Attempts to remove one value without blocking.
    ///
    /// On an empty buffer nothing is returned and nothing moves. Otherwise
    /// the oldest value moves out of the slot at the read cursor (modulo
    /// capacity), the slot becomes vacant, and the read cursor advances by
    /// exactly one.
    pub fn try_pop(&mut self) -> (r: Option<T>)
        requires
            old(self).wf(),
        ensures
            final(self).wf(),
            final(self).capacity() == old(self).capacity(),
            r == spec_pop_value(old(self)@),
            final(self)@ == spec_pop_state(old(self)@),
            final(self).write_cursor() == old(self).write_cursor(),
            final(self).read_cursor() == old(self).read_cursor() + (
            if old(self)@.len() > 0 {
                1int
            } else {
                0int
            }),
    {
        if self.read_ptr == self.write_ptr {
            return None;
        }
        let idx = self.read_ptr % self.size;
        proof {
            let g = *old(self);
            assert(g.stored(0) is Some);
            lemma_mod_bound(g.read_ptr as int, g.size as int);
        }
        let slot = &mut self.storage[idx];
        let taken = slot.take();
        let val = taken.unwrap();
        self.read_ptr = self.read_ptr + 1;
        proof {
            let g = *old(self);
            let s = g.size as int;
            let r0 = g.read_ptr as int;
            let w = g.write_ptr as int;
            let n = w - r0;
            assert forall|k: int| 0 <= k < n - 1 implies self.stored(k) == g.stored(k + 1) by {
                lemma_window_slots_distinct(r0, 1 + k, s);
                lemma_mod_bound(r0 + 1 + k, s);
            };
            assert(val == g@[0]);
            assert(self@ =~= g@.subrange(1, g@.len() as int));
        }
        Some(val)
    }
}

} // verus!
