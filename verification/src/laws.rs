//! General laws of the container, stated over the sequence model that every
//! operation's contract uses, and proved once for every engine.

use vstd::prelude::*;

verus! {

/// The values handed back by `k` successive pops from a container whose
/// stored sequence is `v`, in the order the pops return them.  Each pop
/// returns the last element and leaves the rest, exactly as `pop`'s
/// contract states.
pub open spec fn popped_values<T>(v: Seq<T>, k: nat) -> Seq<T>
    recommends
        k <= v.len(),
    decreases k,
{
    if k == 0 {
        Seq::empty()
    } else {
        seq![v.last()] + popped_values(v.drop_last(), (k - 1) as nat)
    }
}

/// The stored sequence that remains after `k` successive pops.
pub open spec fn remaining_after_pops<T>(v: Seq<T>, k: nat) -> Seq<T>
    recommends
        k <= v.len(),
    decreases k,
{
    if k == 0 {
        v
    } else {
        remaining_after_pops(v.drop_last(), (k - 1) as nat)
    }
}

/// Law: a run of successful pushes appends exactly the pushed items, so the
/// length afterwards has grown by the number of successful pushes; popping
/// that many times then returns the pushed values in reverse order and
/// leaves the sequence that was stored before the run.
///
/// `try_push`'s contract makes every successful push append one element, so
/// any run of pushes that stays within the engine's capacity — every run,
/// for an unbounded engine — takes the stored sequence from `base` to
/// `base + items`; this law sums up the whole run and the pops that undo it.
pub proof fn lemma_pushes_then_pops<T>(base: Seq<T>, items: Seq<T>)
    ensures
        (base + items).len() == base.len() + items.len(),
        popped_values(base + items, items.len()) == items.reverse(),
        remaining_after_pops(base + items, items.len()) == base,
    decreases items.len(),
{
    if items.len() == 0 {
        assert(base + items =~= base);
        assert(popped_values(base + items, items.len()) =~= items.reverse());
    } else {
        let rest = items.drop_last();
        lemma_pushes_then_pops(base, rest);
        assert((base + items).drop_last() =~= base + rest);
        assert(items.reverse() =~= seq![items.last()] + rest.reverse());
    }
}

/// Law: removal at the last valid index always succeeds and returns the
/// last element.  `remove`'s contract accepts every index below the length;
/// this law pins the boundary case `index == len - 1` to the same outcome
/// as a pop, so an off-by-one that rejected the final element could not
/// verify against it.
pub proof fn lemma_remove_last_valid_index<T>(v: Seq<T>)
    requires
        v.len() > 0,
    ensures
        v[v.len() - 1] == v.last(),
        v.remove(v.len() - 1) == v.drop_last(),
{
    assert(v.remove(v.len() - 1) =~= v.drop_last());
}

} // verus!
