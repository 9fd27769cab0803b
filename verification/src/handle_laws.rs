//! What holds of every run of handle operations on one resource.

use vstd::prelude::*;

use crate::resource::{after_clone, after_drop, live, EntryView, Handle};

verus! {

/// One operation on the handles of a resource.
pub enum HandleOp {
    /// A new handle is made from a live one.
    Clone,
    /// A handle is dropped.
    Drop,
}

/// The entries after `op` on the handle `handle`. An operation on a handle
/// that names no live resource fails and changes nothing.
pub open spec fn apply_op(entries: Map<u32, EntryView>, handle: Handle, op: HandleOp) -> Map<
    u32,
    EntryView,
> {
    if !live(entries, handle) {
        entries
    } else {
        match op {
            HandleOp::Clone => after_clone(entries, handle.rep),
            HandleOp::Drop => after_drop(entries, handle.rep),
        }
    }
}

/// The entries after the operations `ops`, applied in order.
pub open spec fn apply_ops(
    entries: Map<u32, EntryView>,
    handle: Handle,
    ops: Seq<HandleOp>,
) -> Map<u32, EntryView>
    decreases ops.len(),
{
    if ops.len() == 0 {
        entries
    } else {
        apply_op(apply_ops(entries, handle, ops.drop_last()), handle, ops.last())
    }
}

/// The number of clones in `ops` minus the number of drops.
pub open spec fn balance(ops: Seq<HandleOp>) -> int
    decreases ops.len(),
{
    if ops.len() == 0 {
        0
    } else {
        balance(ops.drop_last()) + (if ops.last() is Clone {
            1int
        } else {
            -1int
        })
    }
}

/// `clones` clones followed by `drops` drops.
pub open spec fn clones_then_drops(clones: nat, drops: nat) -> Seq<HandleOp> {
    Seq::new(clones, |i: int| HandleOp::Clone) + Seq::new(drops, |i: int| HandleOp::Drop)
}

/// The number of holders that `handle`'s resource counts after `ops`, as
/// long as no drop deleted it: the count it began with, one more for each
/// clone and one less for each drop.
pub open spec fn holders_after(
    entries: Map<u32, EntryView>,
    handle: Handle,
    ops: Seq<HandleOp>,
) -> int {
    entries[handle.rep].ref_count + balance(ops)
}

/// While more than the table's own holding is left after every operation,
/// the resource stays live, keeps its data, and counts one holder more for
/// each clone and one less for each drop.
pub proof fn lemma_count_follows_balance(
    entries: Map<u32, EntryView>,
    handle: Handle,
    ops: Seq<HandleOp>,
)
    requires
        live(entries, handle),
        entries[handle.rep].ref_count >= 1,
        forall|i: int|
            0 < i <= ops.len() ==> holders_after(entries, handle, #[trigger] ops.take(i)) > 1,
    ensures
        live(apply_ops(entries, handle, ops), handle),
        apply_ops(entries, handle, ops)[handle.rep].data == entries[handle.rep].data,
        apply_ops(entries, handle, ops)[handle.rep].ref_count == holders_after(
            entries,
            handle,
            ops,
        ),
    decreases ops.len(),
{
    if ops.len() > 0 {
        let init = ops.drop_last();
        assert forall|i: int| 0 < i <= init.len() implies holders_after(
            entries,
            handle,
            #[trigger] init.take(i),
        ) > 1 by {
            assert(init.take(i) =~= ops.take(i));
        }
        lemma_count_follows_balance(entries, handle, init);
        assert(ops.take(ops.len() as int) =~= ops);
    }
}

/// Handles are made and dropped in any order, and the last drop is the first
/// operation that leaves only the table's own holding: the resource can be
/// retrieved until that drop, and not after it.
pub proof fn lemma_live_until_last_drop(
    entries: Map<u32, EntryView>,
    handle: Handle,
    ops: Seq<HandleOp>,
)
    requires
        live(entries, handle),
        entries[handle.rep].ref_count >= 1,
        ops.len() > 0,
        forall|i: int|
            0 < i < ops.len() ==> holders_after(entries, handle, #[trigger] ops.take(i)) > 1,
        holders_after(entries, handle, ops) == 1,
    ensures
        forall|i: int|
            0 <= i < ops.len() ==> live(apply_ops(entries, handle, #[trigger] ops.take(i)), handle),
        !live(apply_ops(entries, handle, ops), handle),
{
    assert forall|i: int| 0 <= i < ops.len() implies live(
        apply_ops(entries, handle, #[trigger] ops.take(i)),
        handle,
    ) by {
        let prefix = ops.take(i);
        assert forall|j: int| 0 < j <= prefix.len() implies holders_after(
            entries,
            handle,
            #[trigger] prefix.take(j),
        ) > 1 by {
            assert(prefix.take(j) =~= ops.take(j));
        }
        lemma_count_follows_balance(entries, handle, prefix);
    }
    // Before the last operation two holders are left, so it is a drop, and
    // it deletes the entry.
    let init = ops.drop_last();
    assert forall|j: int| 0 < j <= init.len() implies holders_after(
        entries,
        handle,
        #[trigger] init.take(j),
    ) > 1 by {
        assert(init.take(j) =~= ops.take(j));
    }
    lemma_count_follows_balance(entries, handle, init);
}

/// The balance of `clones` clones followed by `drops` drops.
pub proof fn lemma_balance_clones_then_drops(clones: nat, drops: nat)
    ensures
        balance(clones_then_drops(clones, drops)) == clones - drops,
    decreases clones + drops,
{
    let ops = clones_then_drops(clones, drops);
    if drops > 0 {
        assert(ops.drop_last() =~= clones_then_drops(clones, (drops - 1) as nat));
        lemma_balance_clones_then_drops(clones, (drops - 1) as nat);
    } else if clones > 0 {
        assert(ops.drop_last() =~= clones_then_drops((clones - 1) as nat, 0));
        lemma_balance_clones_then_drops((clones - 1) as nat, 0);
    }
}

/// A resource of which `n` handles are made and then `dropped` handles
/// dropped can be retrieved as long as a handle is still out, and no longer
/// once the last one is dropped. `out` is the number of handles that were out
/// before: none for a resource that only the table holds, where the last of
/// `n` drops deletes it; one for a resource fresh from its creator, where
/// the creator's handle has to go as well.
pub proof fn lemma_clones_then_drops(
    entries: Map<u32, EntryView>,
    handle: Handle,
    out: nat,
    n: nat,
    dropped: nat,
)
    requires
        live(entries, handle),
        entries[handle.rep].ref_count == 1 + out,
        out + n > 0,
        dropped <= out + n,
    ensures
        dropped < out + n ==> live(
            apply_ops(entries, handle, clones_then_drops(n, dropped)),
            handle,
        ),
        dropped == out + n ==> !live(
            apply_ops(entries, handle, clones_then_drops(n, dropped)),
            handle,
        ),
{
    let all = clones_then_drops(n, out + n);
    assert forall|i: int| 0 < i < all.len() implies holders_after(
        entries,
        handle,
        #[trigger] all.take(i),
    ) > 1 by {
        if i <= n {
            assert(all.take(i) =~= clones_then_drops(i as nat, 0));
            lemma_balance_clones_then_drops(i as nat, 0);
        } else {
            assert(all.take(i) =~= clones_then_drops(n, (i - n) as nat));
            lemma_balance_clones_then_drops(n, (i - n) as nat);
        }
    }
    lemma_balance_clones_then_drops(n, out + n);
    lemma_live_until_last_drop(entries, handle, all);
    if dropped < out + n {
        assert(all.take((n + dropped) as int) =~= clones_then_drops(n, dropped));
    }
}

/// Handles made from a resource that only the table holds, and as many
/// handles dropped again: the resource can be retrieved until the last of
/// them is dropped, and not after that.
pub proof fn lemma_clones_then_equal_drops(
    entries: Map<u32, EntryView>,
    handle: Handle,
    n: nat,
    dropped: nat,
)
    requires
        live(entries, handle),
        entries[handle.rep].ref_count == 1,
        n > 0,
        dropped <= n,
    ensures
        dropped < n ==> live(apply_ops(entries, handle, clones_then_drops(n, dropped)), handle),
        dropped == n ==> !live(apply_ops(entries, handle, clones_then_drops(n, dropped)), handle),
{
    lemma_clones_then_drops(entries, handle, 0, n, dropped);
}

/// Once a handle names no live resource, no operation on it changes the
/// table: a deleted resource is not deleted again, and no handle brings it
/// back.
pub proof fn lemma_deleted_stays_deleted(
    entries: Map<u32, EntryView>,
    handle: Handle,
    ops: Seq<HandleOp>,
)
    requires
        !live(entries, handle),
    ensures
        apply_ops(entries, handle, ops) == entries,
    decreases ops.len(),
{
    if ops.len() > 0 {
        lemma_deleted_stays_deleted(entries, handle, ops.drop_last());
    }
}

} // verus!
