//! The active workspace's number next to the tab strip, and which workspace a
//! wheel step over it switches to.

use crate::niri::{Snapshot, WorkspaceEntry};
use crate::text::{opt_str_view, opt_string_eq, opt_string_is, opt_view};
use vstd::prelude::*;

verus! {

/// Whether `ws` lies on `output`; no output at all matches every workspace.
pub open spec fn on_output(ws: WorkspaceEntry, output: Option<Seq<char>>) -> bool {
    match output {
        Some(o) => opt_view(ws.output) == Some(o),
        None => true,
    }
}

/// The first position at or after `from` holding an active workspace on
/// `output`.
pub open spec fn first_active_from(
    wss: Seq<WorkspaceEntry>,
    output: Option<Seq<char>>,
    from: int,
) -> Option<int>
    decreases wss.len() - from,
{
    if from < 0 || from >= wss.len() {
        None
    } else if on_output(wss[from], output) && wss[from].is_active {
        Some(from)
    } else {
        first_active_from(wss, output, from + 1)
    }
}

/// The position of the active workspace on `output` (the first one, should
/// niri ever report two).
pub open spec fn active_index_spec(wss: Seq<WorkspaceEntry>, output: Option<Seq<char>>) -> Option<
    int,
> {
    first_active_from(wss, output, 0)
}

/// Where a workspace of position `key` goes among the positions of `order`:
/// after every workspace whose `idx` is not greater, so that equal keys keep
/// the order they were reported in.
pub open spec fn insert_position(
    order: Seq<usize>,
    wss: Seq<WorkspaceEntry>,
    key: u64,
    p: int,
) -> int
    decreases order.len() - p,
{
    if p < 0 || p >= order.len() {
        order.len() as int
    } else if wss[order[p] as int].idx > key {
        p
    } else {
        insert_position(order, wss, key, p + 1)
    }
}

/// The positions (among the first `n` reported workspaces) of those on
/// `output`, sorted by `idx` with ties kept in report order: a stable sort.
pub open spec fn output_order(wss: Seq<WorkspaceEntry>, output: Option<Seq<char>>, n: nat) -> Seq<
    usize,
>
    decreases n,
{
    if n == 0 {
        Seq::empty()
    } else {
        let prev = output_order(wss, output, (n - 1) as nat);
        if opt_view(wss[n - 1].output) == output {
            prev.insert(insert_position(prev, wss, wss[n - 1].idx, 0), (n - 1) as usize)
        } else {
            prev
        }
    }
}

/// The first place at or after `p` in `order` whose workspace has id `id`,
/// or the length of `order` when there is none.
pub open spec fn first_with_id(order: Seq<usize>, wss: Seq<WorkspaceEntry>, id: u64, p: int) -> int
    decreases order.len() - p,
{
    if p < 0 || p >= order.len() {
        order.len() as int
    } else if wss[order[p] as int].id == id {
        p
    } else {
        first_with_id(order, wss, id, p + 1)
    }
}

/// The workspace `direction` steps from the active one (the first active
/// workspace of any output), among the workspaces of that output in `idx`
/// order, wrapping around at either end.
pub open spec fn workspace_after_spec(wss: Seq<WorkspaceEntry>, direction: int) -> Option<u64> {
    match active_index_spec(wss, None) {
        None => None,
        Some(a) => {
            let order = output_order(wss, opt_view(wss[a].output), wss.len());
            let pos = first_with_id(order, wss, wss[a].id, 0);
            if pos >= order.len() {
                None
            } else {
                Some(wss[order[(pos + direction) % (order.len() as int)] as int].id)
            }
        },
    }
}

/// Every position in an output order is below `n` and lies on that output.
pub proof fn lemma_output_order_members(wss: Seq<WorkspaceEntry>, output: Option<Seq<char>>, n: nat)
    requires
        n <= wss.len(),
        wss.len() <= usize::MAX,
    ensures
        forall|k: int|
            0 <= k < output_order(wss, output, n).len() ==> {
                &&& (#[trigger] output_order(wss, output, n)[k]) < n
                &&& opt_view(wss[output_order(wss, output, n)[k] as int].output) == output
            },
    decreases n,
{
    if n > 0 {
        let prev = output_order(wss, output, (n - 1) as nat);
        lemma_output_order_members(wss, output, (n - 1) as nat);
        if opt_view(wss[n - 1].output) == output {
            let p = insert_position(prev, wss, wss[n - 1].idx, 0);
            lemma_insert_position_bounds(prev, wss, wss[n - 1].idx, 0);
            prev.insert_ensures(p, (n - 1) as usize);
        }
    }
}

/// The active position found from `from`, when there is one, is in range
/// and holds an active workspace on `output`.
pub proof fn lemma_first_active_from(wss: Seq<WorkspaceEntry>, output: Option<Seq<char>>, from: int)
    requires
        0 <= from,
    ensures
        match first_active_from(wss, output, from) {
            Some(i) => from <= i < wss.len() && on_output(wss[i], output) && wss[i].is_active,
            None => forall|j: int|
                from <= j < wss.len() ==> !(on_output(#[trigger] wss[j], output) && wss[j].is_active),
        },
    decreases wss.len() - from,
{
    if from < wss.len() && !(on_output(wss[from], output) && wss[from].is_active) {
        lemma_first_active_from(wss, output, from + 1);
    }
}

/// An insertion position found from `p` lies between `p` and the length.
pub proof fn lemma_insert_position_bounds(order: Seq<usize>, wss: Seq<WorkspaceEntry>, key: u64, p: int)
    requires
        0 <= p <= order.len(),
    ensures
        p <= insert_position(order, wss, key, p) <= order.len(),
    decreases order.len() - p,
{
    if p < order.len() && wss[order[p] as int].idx <= key {
        lemma_insert_position_bounds(order, wss, key, p + 1);
    }
}

/// The reported position of every workspace on `output` appears in its order.
pub proof fn lemma_output_order_complete(
    wss: Seq<WorkspaceEntry>,
    output: Option<Seq<char>>,
    n: nat,
    k: int,
)
    requires
        n <= wss.len(),
        wss.len() <= usize::MAX,
        0 <= k < n,
        opt_view(wss[k].output) == output,
    ensures
        output_order(wss, output, n).contains(k as usize),
    decreases n,
{
    let prev = output_order(wss, output, (n - 1) as nat);
    let p = insert_position(prev, wss, wss[n - 1].idx, 0);
    lemma_insert_position_bounds(prev, wss, wss[n - 1].idx, 0);
    prev.insert_ensures(p, (n - 1) as usize);
    if k == n - 1 {
        assert(output_order(wss, output, n)[p] == k as usize);
    } else {
        lemma_output_order_complete(wss, output, (n - 1) as nat, k);
        let j = choose|j: int| 0 <= j < prev.len() && prev[j] == k as usize;
        if opt_view(wss[n - 1].output) == output {
            if j < p {
                assert(output_order(wss, output, n)[j] == k as usize);
            } else {
                assert(output_order(wss, output, n)[j + 1] == k as usize);
            }
        } else {
            assert(output_order(wss, output, n)[j] == k as usize);
        }
    }
}

/// When some place at or after `p` holds workspace `id`, the search finds
/// such a place.
pub proof fn lemma_first_with_id_found(order: Seq<usize>, wss: Seq<WorkspaceEntry>, id: u64, p: int, q: int)
    requires
        0 <= p <= q < order.len(),
        wss[order[q] as int].id == id,
    ensures
        p <= first_with_id(order, wss, id, p) <= q,
        wss[order[first_with_id(order, wss, id, p)] as int].id == id,
    decreases q - p,
{
    if wss[order[p] as int].id != id {
        lemma_first_with_id_found(order, wss, id, p + 1, q);
    }
}

/// Every place before the insertion position found from `p` holds a
/// workspace whose `idx` is not greater than `key`, and the place at it, if
/// any, one whose `idx` is greater.
pub proof fn lemma_insert_position_splits(order: Seq<usize>, wss: Seq<WorkspaceEntry>, key: u64, p: int)
    requires
        0 <= p <= order.len(),
    ensures
        forall|j: int|
            p <= j < insert_position(order, wss, key, p) ==> wss[#[trigger] order[j] as int].idx
                <= key,
        insert_position(order, wss, key, p) < order.len() ==> wss[order[insert_position(
            order,
            wss,
            key,
            p,
        )] as int].idx > key,
    decreases order.len() - p,
{
    if p < order.len() && wss[order[p] as int].idx <= key {
        lemma_insert_position_splits(order, wss, key, p + 1);
    }
}

/// An output order runs through its workspaces by nondecreasing `idx`.
#[verifier::spinoff_prover]
#[verifier::rlimit(40)]
pub proof fn lemma_output_order_sorted(wss: Seq<WorkspaceEntry>, output: Option<Seq<char>>, n: nat)
    requires
        n <= wss.len(),
        wss.len() <= usize::MAX,
    ensures
        forall|k: int, l: int|
            0 <= k < l < output_order(wss, output, n).len() ==> wss[#[trigger] output_order(
                wss,
                output,
                n,
            )[k] as int].idx <= wss[#[trigger] output_order(wss, output, n)[l] as int].idx,
    decreases n,
{
    if n > 0 {
        let prev = output_order(wss, output, (n - 1) as nat);
        lemma_output_order_sorted(wss, output, (n - 1) as nat);
        if opt_view(wss[n - 1].output) == output {
            let key = wss[n - 1].idx;
            let p = insert_position(prev, wss, key, 0);
            lemma_insert_position_bounds(prev, wss, key, 0);
            lemma_insert_position_splits(prev, wss, key, 0);
            let cur = output_order(wss, output, n);
            prev.insert_ensures(p, (n - 1) as usize);
            assert(cur[p] as int == n - 1);
            assert forall|k: int, l: int| 0 <= k < l < cur.len() implies wss[#[trigger] cur[k] as int].idx
                <= wss[#[trigger] cur[l] as int].idx by {
                if l < p {
                    assert(cur[k] == prev[k] && cur[l] == prev[l]);
                } else if l == p {
                    assert(cur[k] == prev[k]);
                } else if k < p {
                    assert(cur[k] == prev[k] && cur[l] == prev[l - 1]);
                    assert(wss[prev[k] as int].idx <= key);
                    assert(wss[prev[p] as int].idx > key);
                    if p < l - 1 {
                        assert(wss[prev[p] as int].idx <= wss[prev[l - 1] as int].idx);
                    }
                } else if k == p {
                    assert(cur[l] == prev[l - 1]);
                    assert(wss[prev[p] as int].idx > key);
                    if p < l - 1 {
                        assert(wss[prev[p] as int].idx <= wss[prev[l - 1] as int].idx);
                    }
                } else {
                    assert(cur[k] == prev[k - 1] && cur[l] == prev[l - 1]);
                }
            }
        }
    }
}

/// No place of an output order repeats a position.
#[verifier::spinoff_prover]
#[verifier::rlimit(40)]
pub proof fn lemma_output_order_distinct(wss: Seq<WorkspaceEntry>, output: Option<Seq<char>>, n: nat)
    requires
        n <= wss.len(),
        wss.len() <= usize::MAX,
    ensures
        forall|k: int, l: int|
            0 <= k < l < output_order(wss, output, n).len() ==> #[trigger] output_order(
                wss,
                output,
                n,
            )[k] != #[trigger] output_order(wss, output, n)[l],
    decreases n,
{
    if n > 0 {
        let prev = output_order(wss, output, (n - 1) as nat);
        lemma_output_order_distinct(wss, output, (n - 1) as nat);
        lemma_output_order_members(wss, output, (n - 1) as nat);
        if opt_view(wss[n - 1].output) == output {
            let key = wss[n - 1].idx;
            let p = insert_position(prev, wss, key, 0);
            lemma_insert_position_bounds(prev, wss, key, 0);
            let cur = output_order(wss, output, n);
            prev.insert_ensures(p, (n - 1) as usize);
            assert forall|k: int, l: int| 0 <= k < l < cur.len() implies #[trigger] cur[k]
                != #[trigger] cur[l] by {
                if l < p {
                    assert(cur[k] == prev[k] && cur[l] == prev[l]);
                } else if l == p {
                    assert(cur[k] == prev[k]);
                } else if k < p {
                    assert(cur[k] == prev[k] && cur[l] == prev[l - 1]);
                } else if k == p {
                    assert(cur[l] == prev[l - 1]);
                } else {
                    assert(cur[k] == prev[k - 1] && cur[l] == prev[l - 1]);
                }
            }
        }
    }
}

/// Positions `i` and `j` of `wss` hold workspaces on the same output.
pub open spec fn same_output(wss: Seq<WorkspaceEntry>, i: int, j: int) -> bool {
    opt_view(wss[i].output) == opt_view(wss[j].output)
}

/// Law: a wheel step forward goes to the workspace of the active one's
/// output whose `idx` comes next: the least `idx` above the active one's,
/// or, from the last workspace, the least `idx` of the output. This holds
/// where niri's own rules hold: on one output no two workspaces share an
/// `idx` or an id.
#[verifier::spinoff_prover]
#[verifier::rlimit(40)]
pub proof fn law_step_forward_takes_next_idx(wss: Seq<WorkspaceEntry>)
    requires
        wss.len() <= usize::MAX,
        active_index_spec(wss, None) is Some,
        forall|i: int, j: int|
            0 <= i < j < wss.len() && same_output(wss, i, j) ==> wss[i].idx != wss[j].idx
                && wss[i].id != wss[j].id,
    ensures
        ({
            let a = active_index_spec(wss, None)->0;
            exists|j: int|
                {
                    &&& 0 <= j < wss.len()
                    &&& same_output(wss, j, a)
                    &&& workspace_after_spec(wss, 1) == Some(wss[j].id)
                    &&& (exists|k: int| 0 <= k < wss.len() && same_output(wss, k, a) && wss[k].idx > wss[a].idx)
                        ==> {
                        &&& wss[j].idx > wss[a].idx
                        &&& forall|k: int|
                            0 <= k < wss.len() && same_output(wss, k, a) && wss[k].idx > wss[a].idx
                                ==> wss[j].idx <= #[trigger] wss[k].idx
                    }
                    &&& !(exists|k: int| 0 <= k < wss.len() && same_output(wss, k, a) && wss[k].idx > wss[a].idx)
                        ==> forall|k: int|
                        0 <= k < wss.len() && same_output(wss, k, a) ==> wss[j].idx
                            <= #[trigger] wss[k].idx
                }
        }),
{
    lemma_first_active_from(wss, None, 0);
    let a = active_index_spec(wss, None)->0;
    let out = opt_view(wss[a].output);
    let n = wss.len();
    let order = output_order(wss, out, n as nat);
    lemma_output_order_members(wss, out, n as nat);
    lemma_output_order_complete(wss, out, n as nat, a);
    lemma_output_order_sorted(wss, out, n as nat);
    lemma_output_order_distinct(wss, out, n as nat);
    let q = choose|q: int| 0 <= q < order.len() && order[q] == a as usize;
    lemma_first_with_id_found(order, wss, wss[a].id, 0, q);
    let pos = first_with_id(order, wss, wss[a].id, 0);
    let len = order.len() as int;
    // The place found by id holds the active workspace itself.
    assert(order[pos] as int == a) by {
        let o = order[pos] as int;
        if o != a {
            assert(same_output(wss, o, a) && same_output(wss, a, o));
            if o < a {
                assert(wss[o].id != wss[a].id);
            } else {
                assert(wss[a].id != wss[o].id);
            }
        }
    }
    // Along the order, idx strictly increases.
    assert forall|k: int, l: int| 0 <= k < l < len implies wss[order[k] as int].idx
        < wss[order[l] as int].idx by {
        let ok = order[k] as int;
        let ol = order[l] as int;
        assert(wss[ok].idx <= wss[ol].idx);
        assert(ok != ol);
        assert(same_output(wss, ok, ol) && same_output(wss, ol, ok));
        if ok < ol {
            assert(wss[ok].idx != wss[ol].idx);
        } else {
            assert(wss[ol].idx != wss[ok].idx);
        }
    }
    // Every workspace of the output has a place in the order.
    assert forall|k: int| 0 <= k < n && same_output(wss, k, a) implies exists|m: int|
        0 <= m < len && order[m] as int == k by {
        lemma_output_order_complete(wss, out, n as nat, k);
        let m = choose|m: int| 0 <= m < order.len() && order[m] == k as usize;
        assert(order[m] as int == k);
    }
    let next = (pos + 1) % len;
    if pos + 1 < len {
        vstd::arithmetic::div_mod::lemma_small_mod((pos + 1) as nat, len as nat);
        let j = order[pos + 1] as int;
        assert(wss[a].idx < wss[j].idx);
        assert(same_output(wss, j, a));
        assert forall|k: int|
            0 <= k < wss.len() && same_output(wss, k, a) && wss[k].idx > wss[a].idx implies wss[j].idx
            <= #[trigger] wss[k].idx by {
            let m = choose|m: int| 0 <= m < len && order[m] as int == k;
            if m <= pos {
                if m < pos {
                    assert(wss[order[m] as int].idx < wss[order[pos] as int].idx);
                }
            } else if m > pos + 1 {
                assert(wss[order[pos + 1] as int].idx < wss[order[m] as int].idx);
            }
        }
        assert(workspace_after_spec(wss, 1) == Some(wss[j].id));
    } else {
        vstd::arithmetic::div_mod::lemma_mod_self_0(len);
        assert(pos + 1 == len);
        let j = order[0] as int;
        assert(same_output(wss, j, a));
        assert forall|k: int| 0 <= k < wss.len() && same_output(wss, k, a) implies wss[j].idx
            <= #[trigger] wss[k].idx by {
            let m = choose|m: int| 0 <= m < len && order[m] as int == k;
            if m > 0 {
                assert(wss[order[0] as int].idx < wss[order[m] as int].idx);
            }
        }
        assert forall|k: int| 0 <= k < wss.len() && same_output(wss, k, a) implies !(wss[k].idx
            > wss[a].idx) by {
            let m = choose|m: int| 0 <= m < len && order[m] as int == k;
            if m < pos {
                assert(wss[order[m] as int].idx < wss[order[pos] as int].idx);
            }
        }
        assert(workspace_after_spec(wss, 1) == Some(wss[j].id));
    }
}

/// Law: a wheel step back goes to the workspace of the active one's output
/// whose `idx` comes before: the greatest `idx` below the active one's, or,
/// from the first workspace, the greatest `idx` of the output. This holds
/// where niri's own rules hold: on one output no two workspaces share an
/// `idx` or an id.
#[verifier::spinoff_prover]
#[verifier::rlimit(40)]
pub proof fn law_step_back_takes_previous_idx(wss: Seq<WorkspaceEntry>)
    requires
        wss.len() <= usize::MAX,
        active_index_spec(wss, None) is Some,
        forall|i: int, j: int|
            0 <= i < j < wss.len() && same_output(wss, i, j) ==> wss[i].idx != wss[j].idx
                && wss[i].id != wss[j].id,
    ensures
        ({
            let a = active_index_spec(wss, None)->0;
            exists|j: int|
                {
                    &&& 0 <= j < wss.len()
                    &&& same_output(wss, j, a)
                    &&& workspace_after_spec(wss, -1) == Some(wss[j].id)
                    &&& (exists|k: int| 0 <= k < wss.len() && same_output(wss, k, a) && wss[k].idx < wss[a].idx)
                        ==> {
                        &&& wss[j].idx < wss[a].idx
                        &&& forall|k: int|
                            0 <= k < wss.len() && same_output(wss, k, a) && wss[k].idx < wss[a].idx
                                ==> wss[j].idx >= #[trigger] wss[k].idx
                    }
                    &&& !(exists|k: int| 0 <= k < wss.len() && same_output(wss, k, a) && wss[k].idx < wss[a].idx)
                        ==> forall|k: int|
                        0 <= k < wss.len() && same_output(wss, k, a) ==> wss[j].idx
                            >= #[trigger] wss[k].idx
                }
        }),
{
    lemma_first_active_from(wss, None, 0);
    let a = active_index_spec(wss, None)->0;
    let out = opt_view(wss[a].output);
    let n = wss.len();
    let order = output_order(wss, out, n as nat);
    lemma_output_order_members(wss, out, n as nat);
    lemma_output_order_complete(wss, out, n as nat, a);
    lemma_output_order_sorted(wss, out, n as nat);
    lemma_output_order_distinct(wss, out, n as nat);
    let q = choose|q: int| 0 <= q < order.len() && order[q] == a as usize;
    lemma_first_with_id_found(order, wss, wss[a].id, 0, q);
    let pos = first_with_id(order, wss, wss[a].id, 0);
    let len = order.len() as int;
    // The place found by id holds the active workspace itself.
    assert(order[pos] as int == a) by {
        let o = order[pos] as int;
        if o != a {
            assert(same_output(wss, o, a) && same_output(wss, a, o));
            if o < a {
                assert(wss[o].id != wss[a].id);
            } else {
                assert(wss[a].id != wss[o].id);
            }
        }
    }
    // Along the order, idx strictly increases.
    assert forall|k: int, l: int| 0 <= k < l < len implies wss[order[k] as int].idx
        < wss[order[l] as int].idx by {
        let ok = order[k] as int;
        let ol = order[l] as int;
        assert(wss[ok].idx <= wss[ol].idx);
        assert(ok != ol);
        assert(same_output(wss, ok, ol) && same_output(wss, ol, ok));
        if ok < ol {
            assert(wss[ok].idx != wss[ol].idx);
        } else {
            assert(wss[ol].idx != wss[ok].idx);
        }
    }
    // Every workspace of the output has a place in the order.
    assert forall|k: int| 0 <= k < n && same_output(wss, k, a) implies exists|m: int|
        0 <= m < len && order[m] as int == k by {
        lemma_output_order_complete(wss, out, n as nat, k);
        let m = choose|m: int| 0 <= m < order.len() && order[m] == k as usize;
        assert(order[m] as int == k);
    }
    if pos > 0 {
        vstd::arithmetic::div_mod::lemma_small_mod((pos - 1) as nat, len as nat);
        let j = order[pos - 1] as int;
        assert(wss[j].idx < wss[a].idx);
        assert(same_output(wss, j, a));
        assert forall|k: int|
            0 <= k < wss.len() && same_output(wss, k, a) && wss[k].idx < wss[a].idx implies wss[j].idx
            >= #[trigger] wss[k].idx by {
            let m = choose|m: int| 0 <= m < len && order[m] as int == k;
            if m >= pos {
                if m > pos {
                    assert(wss[order[pos] as int].idx < wss[order[m] as int].idx);
                }
            } else if m < pos - 1 {
                assert(wss[order[m] as int].idx < wss[order[pos - 1] as int].idx);
            }
        }
        assert(workspace_after_spec(wss, -1) == Some(wss[j].id));
    } else {
        vstd::arithmetic::div_mod::lemma_small_mod((len - 1) as nat, len as nat);
        assert((pos + -1) % len == len - 1) by {
            assert(pos == 0);
            vstd::arithmetic::div_mod::lemma_mod_sub_multiples_vanish(len - 1, len);
            assert(pos + -1 == -len + (len - 1));
        }
        let j = order[len - 1] as int;
        assert(same_output(wss, j, a));
        assert forall|k: int| 0 <= k < wss.len() && same_output(wss, k, a) implies wss[j].idx
            >= #[trigger] wss[k].idx by {
            let m = choose|m: int| 0 <= m < len && order[m] as int == k;
            if m < len - 1 {
                assert(wss[order[m] as int].idx < wss[order[len - 1] as int].idx);
            }
        }
        assert forall|k: int| 0 <= k < wss.len() && same_output(wss, k, a) implies !(wss[k].idx
            < wss[a].idx) by {
            let m = choose|m: int| 0 <= m < len && order[m] as int == k;
            if m > pos {
                assert(wss[order[pos] as int].idx < wss[order[m] as int].idx);
            }
        }
        assert(workspace_after_spec(wss, -1) == Some(wss[j].id));
    }
}

/// How many workspaces share the output of the active one (0 when there is
/// no active workspace).
pub open spec fn active_output_count(wss: Seq<WorkspaceEntry>) -> int {
    match active_index_spec(wss, None) {
        None => 0,
        Some(a) => output_order(wss, opt_view(wss[a].output), wss.len()).len() as int,
    }
}

/// A wheel step finds a workspace exactly when there is an active one to
/// step from, and that workspace lies on the active workspace's output.
pub proof fn law_step_lands_on_same_output(wss: Seq<WorkspaceEntry>, direction: int)
    requires
        wss.len() <= usize::MAX,
    ensures
        workspace_after_spec(wss, direction) is Some <==> active_index_spec(wss, None) is Some,
        active_index_spec(wss, None) is Some ==> exists|k: int|
            0 <= k < wss.len() && opt_view(wss[k].output) == opt_view(
                wss[active_index_spec(wss, None)->0].output,
            ) && Some(#[trigger] wss[k].id) == workspace_after_spec(wss, direction),
{
    lemma_first_active_from(wss, None, 0);
    if let Some(a) = active_index_spec(wss, None) {
        let out = opt_view(wss[a].output);
        let order = output_order(wss, out, wss.len());
        lemma_output_order_complete(wss, out, wss.len(), a);
        lemma_output_order_members(wss, out, wss.len());
        let q = choose|q: int| 0 <= q < order.len() && order[q] == a as usize;
        lemma_first_with_id_found(order, wss, wss[a].id, 0, q);
        let pos = first_with_id(order, wss, wss[a].id, 0);
        let next = (pos + direction) % (order.len() as int);
        vstd::arithmetic::div_mod::lemma_mod_bound(pos + direction, order.len() as int);
        let k = order[next] as int;
        assert(0 <= k < wss.len() && opt_view(wss[k].output) == out);
    }
}

/// A step of zero stays on the active workspace.
pub proof fn law_zero_step_stays(wss: Seq<WorkspaceEntry>)
    requires
        wss.len() <= usize::MAX,
        active_index_spec(wss, None) is Some,
    ensures
        workspace_after_spec(wss, 0) == Some(wss[active_index_spec(wss, None)->0].id),
{
    lemma_first_active_from(wss, None, 0);
    let a = active_index_spec(wss, None)->0;
    let out = opt_view(wss[a].output);
    let order = output_order(wss, out, wss.len());
    lemma_output_order_complete(wss, out, wss.len(), a);
    let q = choose|q: int| 0 <= q < order.len() && order[q] == a as usize;
    lemma_first_with_id_found(order, wss, wss[a].id, 0, q);
    let pos = first_with_id(order, wss, wss[a].id, 0);
    vstd::arithmetic::div_mod::lemma_small_mod(pos as nat, order.len());
}

/// Stepping once around the whole output (as many steps as it has
/// workspaces) lands where no step at all would: the order wraps around.
pub proof fn law_full_turn_wraps(wss: Seq<WorkspaceEntry>, direction: int)
    requires
        wss.len() <= usize::MAX,
    ensures
        workspace_after_spec(wss, direction + active_output_count(wss)) == workspace_after_spec(
            wss,
            direction,
        ),
{
    if let Some(a) = active_index_spec(wss, None) {
        let out = opt_view(wss[a].output);
        let order = output_order(wss, out, wss.len());
        let pos = first_with_id(order, wss, wss[a].id, 0);
        if pos < order.len() {
            let len = order.len() as int;
            vstd::arithmetic::div_mod::lemma_mod_add_multiples_vanish(pos + direction, len);
            assert(pos + (direction + len) == len + (pos + direction));
        }
    }
}

/// What happens to the workspace indicator.
#[derive(Clone, Debug)]
pub enum Message {
    /// niri reported a new state.
    Snapshot(Snapshot),
    /// A click: open niri's overview.
    OpenOverview,
    /// A wheel step; the sign is the direction.
    Scroll(i32),
}

/// What the caller carries out after an update.
#[derive(Clone, Debug)]
pub enum IndicatorAction {
    /// Run a shell command.
    RunCommand(String),
    /// Ask niri to focus the workspace with this id.
    FocusWorkspace(u64),
}

/// What the workspace indicator keeps: the latest niri snapshot.
pub struct WorkspaceIndicator {
    pub snapshot: Snapshot,
}

impl WorkspaceIndicator {
    /// An indicator that has not heard from niri yet.
    pub fn new() -> (s: Self)
        ensures
            s.snapshot.workspaces@.len() == 0,
            s.snapshot.windows@.len() == 0,
    {
        WorkspaceIndicator { snapshot: Snapshot::empty() }
    }

    /// Takes in a new snapshot from niri.
    pub fn set_snapshot(&mut self, snapshot: Snapshot)
        ensures
            final(self).snapshot == snapshot,
    {
        self.snapshot = snapshot;
    }

    /// Handles `message`: a snapshot replaces the last one; a click opens the
    /// overview; a wheel step focuses the workspace that many steps away, if
    /// there is an active workspace to step from.
    pub fn update(&mut self, message: Message) -> (action: Option<IndicatorAction>)
        ensures
            match message {
                Message::Snapshot(s) => final(self).snapshot == s && action is None,
                Message::OpenOverview => {
                    &&& final(self).snapshot == old(self).snapshot
                    &&& action matches Some(IndicatorAction::RunCommand(c))
                    &&& c@ == "niri msg action toggle-overview"@
                },
                Message::Scroll(d) => {
                    &&& final(self).snapshot == old(self).snapshot
                    &&& match workspace_after_spec(old(self).snapshot.workspaces@, d as int) {
                        Some(id) => action matches Some(IndicatorAction::FocusWorkspace(t)) && t
                            == id,
                        None => action is None,
                    }
                },
            },
    {
        match message {
            Message::Snapshot(snapshot) => {
                self.snapshot = snapshot;
                None
            },
            Message::OpenOverview => Some(
                IndicatorAction::RunCommand(String::from_str("niri msg action toggle-overview")),
            ),
            Message::Scroll(direction) => match self.workspace_after(direction) {
                Some(target) => Some(IndicatorAction::FocusWorkspace(target)),
                None => None,
            },
        }
    }

    /// The position of the active workspace on `output` (on any output when
    /// `output` is `None`).
    pub fn active_index(&self, output: Option<&str>) -> (res: Option<usize>)
        ensures
            match res {
                Some(i) => active_index_spec(self.snapshot.workspaces@, opt_str_view(output))
                    == Some(i as int),
                None => active_index_spec(self.snapshot.workspaces@, opt_str_view(output))
                    is None,
            },
    {
        active_workspace_index(&self.snapshot.workspaces, output)
    }

    /// The active workspace on `output`, if any.
    pub fn active(&self, output: Option<&str>) -> (res: Option<&WorkspaceEntry>)
        ensures
            match active_index_spec(self.snapshot.workspaces@, opt_str_view(output)) {
                Some(i) => res == Some(&self.snapshot.workspaces@[i]),
                None => res is None,
            },
    {
        proof {
            lemma_first_active_from(self.snapshot.workspaces@, opt_str_view(output), 0);
        }
        match self.active_index(output) {
            Some(i) => Some(&self.snapshot.workspaces[i]),
            None => None,
        }
    }

    /// The id of the workspace `direction` steps from the active one, on the
    /// same output, in `idx` order and wrapping around; `None` when there is
    /// no active workspace to step from.
    pub fn workspace_after(&self, direction: i32) -> (res: Option<u64>)
        ensures
            res == workspace_after_spec(self.snapshot.workspaces@, direction as int),
    {
        let wss = &self.snapshot.workspaces;
        let a = match self.active_index(None) {
            Some(a) => a,
            None => return None,
        };
        proof {
            lemma_first_active_from(wss@, None, 0);
        }
        let ghost out = opt_view(wss@[a as int].output);
        let n = wss.len();
        let mut order: Vec<usize> = Vec::new();
        for i in 0..n
            invariant
                n == wss@.len(),
                a < n,
                out == opt_view(wss@[a as int].output),
                order@ == output_order(wss@, out, i as nat),
                forall|k: int| 0 <= k < order@.len() ==> (#[trigger] order@[k]) < i,
        {
            proof {
                lemma_output_order_members(wss@, out, i as nat);
            }
            if opt_string_eq(&wss[i].output, &wss[a].output) {
                let key = wss[i].idx;
                let mut p: usize = 0;
                while p < order.len() && wss[order[p]].idx <= key
                    invariant
                        n == wss@.len(),
                        p <= order@.len(),
                        i < n,
                        forall|k: int| 0 <= k < order@.len() ==> (#[trigger] order@[k]) < i,
                        insert_position(order@, wss@, key, 0) == insert_position(
                            order@,
                            wss@,
                            key,
                            p as int,
                        ),
                    decreases order@.len() - p,
                {
                    p = p + 1;
                }
                proof {
                    order@.insert_ensures(p as int, i);
                }
                order.insert(p, i);
            }
        }
        proof {
            lemma_output_order_members(wss@, out, n as nat);
        }
        let target = wss[a].id;
        let len = order.len();
        let mut pos: usize = 0;
        while pos < len && wss[order[pos]].id != target
            invariant
                n == wss@.len(),
                len == order@.len(),
                pos <= len,
                forall|k: int| 0 <= k < order@.len() ==> (#[trigger] order@[k]) < n,
                first_with_id(order@, wss@, target, 0) == first_with_id(
                    order@,
                    wss@,
                    target,
                    pos as int,
                ),
            decreases len - pos,
        {
            pos = pos + 1;
        }
        if pos >= len {
            return None;
        }
        let next = step_wrapping(pos, direction, len);
        Some(wss[order[next]].id)
    }

    /// The text the indicator shows: the active workspace's name, or its
    /// position when it has no (non-empty) name, followed by " ›".
    pub fn label(ws: &WorkspaceEntry) -> (s: String)
        ensures
            s@ == label_spec(*ws),
    {
        let base = match &ws.name {
            Some(name) if name.unicode_len() > 0 => name.clone(),
            _ => crate::text::u64_to_decimal(ws.idx),
        };
        let sep = " \u{203a}";
        proof {
            reveal_strlit(" \u{203a}");
        }
        base.concat(sep)
    }
}

/// The label shown for a workspace.
pub open spec fn label_spec(ws: WorkspaceEntry) -> Seq<char> {
    let base = match ws.name {
        Some(name) => if name@.len() > 0 { name@ } else { crate::text::decimal_spec(ws.idx as nat) },
        None => crate::text::decimal_spec(ws.idx as nat),
    };
    base + seq![' ', '\u{203a}']
}

/// The position of the first active workspace on `output` in `wss`.
pub fn active_workspace_index(wss: &Vec<WorkspaceEntry>, output: Option<&str>) -> (res: Option<usize>)
    ensures
        match res {
            Some(i) => active_index_spec(wss@, opt_str_view(output)) == Some(i as int),
            None => active_index_spec(wss@, opt_str_view(output)) is None,
        },
{
    let n = wss.len();
    for i in 0..n
        invariant
            n == wss@.len(),
            active_index_spec(wss@, opt_str_view(output)) == first_active_from(
                wss@,
                opt_str_view(output),
                i as int,
            ),
    {
        let matches_output = match output {
            Some(o) => opt_string_is(&wss[i].output, o),
            None => true,
        };
        if matches_output && wss[i].is_active {
            return Some(i);
        }
    }
    None
}

/// `(pos + direction)` reduced into `0..len`, wrapping in both directions.
pub fn step_wrapping(pos: usize, direction: i32, len: usize) -> (next: usize)
    requires
        pos < len,
    ensures
        next as int == (pos + direction) % (len as int),
        next < len,
{
    let l = len as u128;
    let k: u128 = if direction >= 0 {
        direction as u128
    } else {
        (-(direction as i64)) as u128
    };
    let r = k % l;
    let next = if direction >= 0 {
        (pos as u128 + r) % l
    } else {
        (pos as u128 + l - r) % l
    };
    proof {
        let p = pos as int;
        let li = len as int;
        vstd::arithmetic::div_mod::lemma_mod_bound(p + direction, li);
        if direction >= 0 {
            vstd::arithmetic::div_mod::lemma_add_mod_noop_right(p, direction as int, li);
        } else {
            vstd::arithmetic::div_mod::lemma_sub_mod_noop_right(p, k as int, li);
            vstd::arithmetic::div_mod::lemma_mod_add_multiples_vanish(p - (k as int) % li, li);
        }
    }
    next as usize
}

} // verus!
