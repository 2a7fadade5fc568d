//! The guarantees of the queue, stated and proved over the mathematical
//! model: FIFO order, the capacity bound, and the stability of the empty
//! buffer.

use vstd::prelude::*;

use crate::model::drain_all;
use crate::model::push_all;
use crate::model::spec_pop_state;
use crate::model::spec_pop_value;
use crate::model::spec_push;
use crate::model::spec_push_rejected;

verus! {

/// Pushes that all fit within the capacity append their values in order.
proof fn lemma_push_all_within_capacity<T>(s: Seq<T>, cap: nat, vs: Seq<T>)
    requires
        s.len() + vs.len() <= cap,
    ensures
        push_all(s, cap, vs) == s + vs,
    decreases vs.len(),
{
    if vs.len() == 0 {
        assert(s + vs =~= s);
    } else {
        let s1 = spec_push(s, cap, vs[0]);
        lemma_push_all_within_capacity(s1, cap, vs.subrange(1, vs.len() as int));
        assert(s.push(vs[0]) + vs.subrange(1, vs.len() as int) =~= s + vs);
    }
}

/// Popping until empty yields the contents, oldest first.
proof fn lemma_drain_all_yields_contents<T>(s: Seq<T>)
    ensures
        drain_all(s) == s,
    decreases s.len(),
{
    if s.len() == 0 {
        assert(drain_all(s) =~= s);
    } else {
        lemma_drain_all_yields_contents(spec_pop_state(s));
        assert(seq![s[0]] + s.subrange(1, s.len() as int) =~= s);
    }
}

/// FIFO order: pushing `v0..v(n-1)` in order into an empty buffer whose
/// capacity admits them all, then popping until empty, yields exactly
/// `v0..v(n-1)` in the same order.
pub proof fn lemma_fifo_order<T>(vs: Seq<T>, cap: nat)
    requires
        vs.len() <= cap,
    ensures
        push_all(Seq::<T>::empty(), cap, vs) == vs,
        drain_all(push_all(Seq::<T>::empty(), cap, vs)) == vs,
{
    lemma_push_all_within_capacity(Seq::<T>::empty(), cap, vs);
    assert(Seq::<T>::empty() + vs =~= vs);
    lemma_drain_all_yields_contents(vs);
}

/// Capacity bound: a buffer of capacity `cap` accepts `cap` consecutive
/// pushes from empty; the push after those is rejected, hands the offered
/// value back unchanged, and leaves the contents — by then exactly `cap`
/// values — untouched.
pub proof fn lemma_capacity_bound<T>(vs: Seq<T>, cap: nat, extra: T)
    requires
        vs.len() == cap,
    ensures
        forall|i: int|
            0 <= i < vs.len() ==> spec_push_rejected(
                #[trigger] push_all(Seq::<T>::empty(), cap, vs.take(i)),
                cap,
                vs[i],
            ) is None,
        push_all(Seq::<T>::empty(), cap, vs) == vs,
        push_all(Seq::<T>::empty(), cap, vs).len() == cap,
        spec_push_rejected(vs, cap, extra) == Some(extra),
        spec_push(vs, cap, extra) == vs,
{
    assert forall|i: int| 0 <= i < vs.len() implies spec_push_rejected(
        #[trigger] push_all(Seq::<T>::empty(), cap, vs.take(i)),
        cap,
        vs[i],
    ) is None by {
        lemma_push_all_within_capacity(Seq::<T>::empty(), cap, vs.take(i));
        assert(Seq::<T>::empty() + vs.take(i) =~= vs.take(i));
    };
    lemma_push_all_within_capacity(Seq::<T>::empty(), cap, vs);
    assert(Seq::<T>::empty() + vs =~= vs);
}

/// Empty stability: popping an empty buffer yields nothing and changes
/// nothing, however often it is repeated; after one push of `v` the next
/// pop yields exactly `v`, exactly once, and the buffer is empty again.
pub proof fn lemma_empty_stability<T>(cap: nat, v: T)
    requires
        0 < cap,
    ensures
        spec_pop_value(Seq::<T>::empty()) is None,
        spec_pop_state(Seq::<T>::empty()) == Seq::<T>::empty(),
        spec_pop_value(spec_push(Seq::<T>::empty(), cap, v)) == Some(v),
        spec_pop_state(spec_push(Seq::<T>::empty(), cap, v)) == Seq::<T>::empty(),
        spec_pop_value(spec_pop_state(spec_push(Seq::<T>::empty(), cap, v))) is None,
{
    let one = spec_push(Seq::<T>::empty(), cap, v);
    assert(one.len() == 1);
    assert(spec_pop_state(one) =~= Seq::<T>::empty());
}

} // verus!
