//! Properties of the cycling model that hold across several operations.

use vstd::arithmetic::div_mod::{
    lemma_add_mod_noop, lemma_mod_pos_bound, lemma_mod_sub_multiples_vanish, lemma_small_mod,
};
use vstd::prelude::*;

use crate::cycle::CycleView;
use crate::window::{window_ids, EveWindow};

verus! {

/// The state after `k` forward steps from `v`.
pub open spec fn forward_steps(v: CycleView, k: nat) -> CycleView
    decreases k,
{
    if k == 0 {
        v
    } else {
        forward_steps(v, (k - 1) as nat).forwarded()
    }
}

/// How many forward steps lead from `v` to position `p`.
pub open spec fn steps_to(v: CycleView, p: int) -> nat {
    ((p - v.current + v.windows.len()) % (v.windows.len() as int)) as nat
}

/// A value in `[0, 2n)` reduced modulo `n` needs at most one subtraction.
proof fn lemma_mod_below_twice(x: int, n: int)
    requires
        n > 0,
        0 <= x < 2 * n,
    ensures
        x % n == if x < n {
            x
        } else {
            x - n
        },
{
    if x < n {
        lemma_small_mod(x as nat, n as nat);
    } else {
        lemma_small_mod((x - n) as nat, n as nat);
        lemma_mod_sub_multiples_vanish(x, n);
    }
}

/// After `k` forward steps the index is the start index plus `k`, modulo the
/// list length.
proof fn lemma_forward_steps_index(v: CycleView, k: nat)
    requires
        v.wf(),
        !v.is_empty(),
    ensures
        forward_steps(v, k) == v.with_current((v.current + k) % (v.windows.len() as int)),
    decreases k,
{
    let n = v.windows.len() as int;
    if k == 0 {
        lemma_small_mod(v.current as nat, n as nat);
    } else {
        lemma_forward_steps_index(v, (k - 1) as nat);
        let x = v.current + k - 1;
        lemma_add_mod_noop(x, 1, n);
        if n > 1 {
            lemma_small_mod(1, n as nat);
        } else {
            lemma_mod_pos_bound(x % n + 1, n);
            lemma_mod_pos_bound(x + 1, n);
        }
    }
}

/// Cycling forward once per window visits every position exactly once and
/// comes back to the position it started from: a plain rotation.
pub proof fn lemma_forward_rotation(v: CycleView)
    requires
        v.wf(),
        !v.is_empty(),
    ensures
        forward_steps(v, v.windows.len()) == v,
        forall|i: nat, j: nat|
            i < j < v.windows.len() ==> #[trigger] forward_steps(v, i).current
                != #[trigger] forward_steps(v, j).current,
        forall|p: int|
            0 <= p < v.windows.len() ==> #[trigger] steps_to(v, p) < v.windows.len()
                && forward_steps(v, steps_to(v, p)).current == p,
{
    let n = v.windows.len() as int;
    let c = v.current;
    lemma_forward_steps_index(v, n as nat);
    lemma_mod_below_twice(c + n, n);
    assert forall|i: nat, j: nat| i < j < v.windows.len() implies #[trigger] forward_steps(
        v,
        i,
    ).current != #[trigger] forward_steps(v, j).current by {
        lemma_forward_steps_index(v, i);
        lemma_forward_steps_index(v, j);
        lemma_mod_below_twice(c + i, n);
        lemma_mod_below_twice(c + j, n);
    }
    assert forall|p: int| 0 <= p < v.windows.len() implies #[trigger] steps_to(v, p)
        < v.windows.len() && forward_steps(v, steps_to(v, p)).current == p by {
        lemma_mod_below_twice(p - c + n, n);
        let k = steps_to(v, p);
        lemma_forward_steps_index(v, k);
        lemma_mod_below_twice(c + k, n);
    }
}

/// A forward step followed by a backward step restores the state, and so
/// does the reverse order.
pub proof fn lemma_forward_backward_inverse(v: CycleView)
    requires
        v.wf(),
    ensures
        v.forwarded().backwarded() == v,
        v.backwarded().forwarded() == v,
{
    if !v.is_empty() {
        let n = v.windows.len() as int;
        let c = v.current;
        lemma_mod_below_twice(c + 1, n);
        let f = (c + 1) % n;
        lemma_mod_below_twice(f - 1 + n, n);
        lemma_mod_below_twice(c - 1 + n, n);
        let b = (c - 1 + n) % n;
        lemma_mod_below_twice(b + 1, n);
    }
}

/// Replacing the list keeps the index on the same window whenever that
/// window is still listed, wherever it moved to.
pub proof fn lemma_update_keeps_window(v: CycleView, new_windows: Seq<EveWindow>)
    requires
        v.wf(),
        !v.is_empty(),
        window_ids(new_windows).contains(v.windows[v.current].id),
    ensures
        v.updated(new_windows).wf(),
        v.updated(new_windows).current_id() == v.current_id(),
{
    window_ids(new_windows).index_of_first_ensures(v.windows[v.current].id);
}

/// Replacing the list with an empty one gives the empty state, on which
/// cycling in either direction changes nothing.
pub proof fn lemma_update_to_empty(v: CycleView)
    ensures
        v.updated(Seq::empty()).is_empty(),
        v.updated(Seq::empty()).wf(),
        v.updated(Seq::empty()).forwarded() == v.updated(Seq::empty()),
        v.updated(Seq::empty()).backwarded() == v.updated(Seq::empty()),
{
}

/// Syncing with the id of the window at position `k` points the index at
/// `k`, whatever it was before, when no earlier window has that id.
pub proof fn lemma_sync_points_at(v: CycleView, k: int, id: u32)
    requires
        v.wf(),
        0 <= k < v.windows.len(),
        v.windows[k].id == id,
        forall|j: int| 0 <= j < k ==> v.windows[j].id != id,
    ensures
        v.synced(id).current == k,
        v.synced(id).last_active == Some(id),
        v.synced(id).windows == v.windows,
{
    let ids = window_ids(v.windows);
    assert(ids[k] == id);
    assert(ids.contains(id));
    ids.index_of_first_ensures(id);
    let idx = ids.index_of_first(id)->0;
    assert(v.windows[idx].id == id);
}

} // verus!
