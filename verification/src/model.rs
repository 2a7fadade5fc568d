//! Mathematical model of the queue: its contents as a sequence, oldest value
//! first, and the effect of one non-blocking push or pop on that sequence.

use vstd::prelude::*;

verus! {

/// Contents after offering `v` to a buffer holding `s` with capacity `cap`:
/// a full buffer is unchanged, otherwise `v` is appended at the back.
pub open spec fn spec_push<T>(s: Seq<T>, cap: nat, v: T) -> Seq<T> {
    if s.len() < cap {
        s.push(v)
    } else {
        s
    }
}

/// What a push returns: `None` on success, and on a full buffer the offered
/// value handed back unchanged.
pub open spec fn spec_push_rejected<T>(s: Seq<T>, cap: nat, v: T) -> Option<T> {
    if s.len() < cap {
        None
    } else {
        Some(v)
    }
}

/// Contents after a pop: an empty buffer is unchanged, otherwise the front
/// value is gone.
pub open spec fn spec_pop_state<T>(s: Seq<T>) -> Seq<T> {
    if s.len() == 0 {
        s
    } else {
        s.subrange(1, s.len() as int)
    }
}

/// What a pop returns: `None` on an empty buffer, otherwise the front value.
pub open spec fn spec_pop_value<T>(s: Seq<T>) -> Option<T> {
    if s.len() == 0 {
        None::<T>
    } else {
        Some(s[0])
    }
}

/// Contents after offering every value of `vs`, in order, to a buffer
/// holding `s` with capacity `cap`.
pub open spec fn push_all<T>(s: Seq<T>, cap: nat, vs: Seq<T>) -> Seq<T>
    decreases vs.len(),
{
    if vs.len() == 0 {
        s
    } else {
        push_all(spec_push(s, cap, vs[0]), cap, vs.subrange(1, vs.len() as int))
    }
}

/// The values a buffer holding `s` yields when popped until empty, in the
/// order they come out.
pub open spec fn drain_all<T>(s: Seq<T>) -> Seq<T>
    decreases s.len(),
{
    if s.len() == 0 {
        Seq::<T>::empty()
    } else {
        seq![s[0]] + drain_all(spec_pop_state(s))
    }
}

} // verus!
