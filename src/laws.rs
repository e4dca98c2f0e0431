//! What holds of a run of operations on the sequence, stated over the spec functions
//! that the contracts of `Fifo` use.

use crate::fifo::{after_pop, front};
use vstd::prelude::*;

verus! {

/// The sequence after pushing the items of `xs` onto `s`, one at a time, first to last.
pub open spec fn push_all<T>(s: Seq<T>, xs: Seq<T>) -> Seq<T>
    decreases xs.len(),
{
    if xs.len() == 0 {
        s
    } else {
        push_all(s.push(xs[0]), xs.drop_first())
    }
}

/// The results of `n` pops, in order, starting from `s`.
pub open spec fn pops<T>(s: Seq<T>, n: nat) -> Seq<Option<T>>
    decreases n,
{
    if n == 0 {
        Seq::empty()
    } else {
        seq![front(s)] + pops(after_pop(s), (n - 1) as nat)
    }
}

/// The sequence left after `n` pops, starting from `s`.
pub open spec fn after_pops<T>(s: Seq<T>, n: nat) -> Seq<T>
    decreases n,
{
    if n == 0 {
        s
    } else {
        after_pops(after_pop(s), (n - 1) as nat)
    }
}

/// `Some` of each item of `s`, in order.
pub open spec fn somes<T>(s: Seq<T>) -> Seq<Option<T>> {
    s.map_values(|x: T| Some(x))
}

proof fn lemma_push_all_appends<T>(s: Seq<T>, xs: Seq<T>)
    ensures
        push_all(s, xs) == s + xs,
    decreases xs.len(),
{
    if xs.len() > 0 {
        lemma_push_all_appends(s.push(xs[0]), xs.drop_first());
        assert(s.push(xs[0]) + xs.drop_first() =~= s + xs);
    } else {
        assert(s + xs =~= s);
    }
}

proof fn lemma_pops_take_head<T>(s: Seq<T>, n: nat)
    requires
        n <= s.len(),
    ensures
        pops(s, n) == somes(s.take(n as int)),
        after_pops(s, n) == s.skip(n as int),
    decreases n,
{
    if n == 0 {
        assert(somes(s.take(0)) =~= Seq::<Option<T>>::empty());
        assert(s.skip(0) =~= s);
    } else {
        let rest = s.drop_first();
        assert(after_pop(s) == rest);
        lemma_pops_take_head(rest, (n - 1) as nat);
        assert(somes(s.take(n as int)) =~= seq![Some(s[0])] + somes(rest.take(n - 1)));
        assert(rest.skip(n - 1) =~= s.skip(n as int));
    }
}

/// Items come out in the order they went in: after pushing `xs` onto an empty sequence,
/// as many pops return the items of `xs`, first to last.
pub proof fn law_fifo_order<T>(xs: Seq<T>)
    ensures
        pops(push_all(Seq::empty(), xs), xs.len()) == somes(xs),
{
    lemma_push_all_appends(Seq::empty(), xs);
    assert(Seq::<T>::empty() + xs =~= xs);
    lemma_pops_take_head(xs, xs.len());
    assert(xs.take(xs.len() as int) =~= xs);
}

/// After pushing `xs` onto an empty sequence, as many pops leave it empty.
pub proof fn law_drain_leaves_empty<T>(xs: Seq<T>)
    ensures
        after_pops(push_all(Seq::empty(), xs), xs.len()).len() == 0,
{
    lemma_push_all_appends(Seq::empty(), xs);
    assert(Seq::<T>::empty() + xs =~= xs);
    lemma_pops_take_head(xs, xs.len());
}

/// A pop on an empty sequence returns `None` and leaves the sequence as it was.
pub proof fn law_pop_on_empty<T>(s: Seq<T>)
    requires
        s.len() == 0,
    ensures
        front(s) is None,
        after_pop(s) == s,
{
}

/// Pushes lose and duplicate nothing, whatever order they come in: the sequence holds
/// exactly the items it held and the items pushed, each as often as it was pushed.
pub proof fn law_pushes_keep_every_item<T>(s: Seq<T>, xs: Seq<T>)
    ensures
        push_all(s, xs).len() == s.len() + xs.len(),
        push_all(s, xs).to_multiset() == s.to_multiset().add(xs.to_multiset()),
{
    lemma_push_all_appends(s, xs);
    vstd::seq_lib::lemma_multiset_commutative(s, xs);
}

} // verus!
