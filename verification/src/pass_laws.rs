//! What holds of every run of creations and removals that scripts make
//! through the store in one pass.

use vstd::prelude::*;

use crate::actions::Action;
use crate::graph::{
    after_create, after_remove, after_unlink, drop_deletes, grants_access, reference_of,
    referent_kind, releases, remove_actions,
};
use crate::resource::{live, DataView, EntryView, Handle, ResourceKind};
use crate::scene::{MaterialView, MeshView, NodeView, Primitive};

verus! {

/// One call of a script into the store that succeeded.
pub enum HostCall {
    /// A resource of the kind `kind` was created, and the table put it under
    /// the id `id`.
    Create { capability: Handle, kind: ResourceKind, id: u32 },
    /// The handle `handle` was dropped.
    Remove { handle: Handle },
}

/// The data that a new resource of the kind `kind` has.
pub open spec fn fresh_data(kind: ResourceKind) -> DataView {
    match kind {
        ResourceKind::Node => DataView::Node(NodeView::fresh()),
        ResourceKind::Mesh => DataView::Mesh(MeshView::fresh()),
        ResourceKind::Primitive => DataView::Primitive(Primitive { material: None }),
        ResourceKind::Material => DataView::Material(MaterialView::fresh()),
        ResourceKind::Capability => DataView::Capability,
    }
}

/// Whether `call` can have succeeded at `entries`: a creation shows a live
/// capability, makes scene data and gets an id that was free; a removal
/// drops a live handle.
pub open spec fn succeeds(entries: Map<u32, EntryView>, call: HostCall) -> bool {
    match call {
        HostCall::Create { capability, kind, id } => grants_access(entries, capability) && kind
            != ResourceKind::Capability && !entries.dom().contains(id),
        HostCall::Remove { handle } => live(entries, handle),
    }
}

/// The entries after `call`.
pub open spec fn after_call(entries: Map<u32, EntryView>, call: HostCall) -> Map<u32, EntryView> {
    match call {
        HostCall::Create { capability, kind, id } => after_create(entries, id, fresh_data(kind)),
        HostCall::Remove { handle } => after_remove(entries, handle),
    }
}

/// The actions that `call` queues.
pub open spec fn call_actions(entries: Map<u32, EntryView>, call: HostCall) -> Seq<Action> {
    match call {
        HostCall::Create { capability, kind, id } => seq![Action::created(kind, id)],
        HostCall::Remove { handle } => remove_actions(entries, handle),
    }
}

/// The action that reports `call` itself: it has the call's kind, the kind
/// of its resource and the id of its resource.
pub open spec fn matching(call: HostCall) -> Action {
    match call {
        HostCall::Create { capability, kind, id } => Action::created(kind, id),
        HostCall::Remove { handle } => Action::removed(handle.kind, handle.rep),
    }
}

/// Whether the drop of `handle` deletes, beside its own resource, the one
/// that this resource referred to: the deleted resource was the last holder
/// of its mesh or material.
pub open spec fn cascades(entries: Map<u32, EntryView>, handle: Handle) -> bool {
    let target = reference_of(entries[handle.rep].data);
    let remaining = after_unlink(entries, handle);
    drop_deletes(entries, handle) && releases(remaining, target, referent_kind(handle.kind))
        && remaining[target->0].ref_count == 2
}

/// Whether `call` removes or creates exactly one scene resource: every
/// creation does; a removal does when it deletes its resource, which is
/// scene data, and nothing else.
pub open spec fn changes_one(entries: Map<u32, EntryView>, call: HostCall) -> bool {
    match call {
        HostCall::Create { capability, kind, id } => true,
        HostCall::Remove { handle } => drop_deletes(entries, handle) && handle.kind
            != ResourceKind::Capability && !cascades(entries, handle),
    }
}

/// The entries after the calls `calls`, made in order.
pub open spec fn after_calls(entries: Map<u32, EntryView>, calls: Seq<HostCall>) -> Map<
    u32,
    EntryView,
>
    decreases calls.len(),
{
    if calls.len() == 0 {
        entries
    } else {
        after_call(after_calls(entries, calls.drop_last()), calls.last())
    }
}

/// The actions that the calls `calls`, made in order, queue.
pub open spec fn actions_of(entries: Map<u32, EntryView>, calls: Seq<HostCall>) -> Seq<Action>
    decreases calls.len(),
{
    if calls.len() == 0 {
        Seq::empty()
    } else {
        actions_of(entries, calls.drop_last()) + call_actions(
            after_calls(entries, calls.drop_last()),
            calls.last(),
        )
    }
}

/// What a removal reports, case by case: nothing when other handles are
/// still out; its own removal when it deletes its resource; and after that
/// the removal of the mesh or material whose last holder the deleted resource
/// was. The drop of a capability reports nothing.
pub proof fn lemma_removal_reports(entries: Map<u32, EntryView>, handle: Handle)
    requires
        live(entries, handle),
    ensures
        !drop_deletes(entries, handle) ==> remove_actions(entries, handle) == Seq::<
            Action,
        >::empty(),
        changes_one(entries, HostCall::Remove { handle }) ==> remove_actions(entries, handle)
            == seq![Action::removed(handle.kind, handle.rep)],
        cascades(entries, handle) && handle.kind != ResourceKind::Capability ==> remove_actions(
            entries,
            handle,
        ) == seq![
            Action::removed(handle.kind, handle.rep),
            Action::removed(
                referent_kind(handle.kind),
                reference_of(entries[handle.rep].data)->0,
            ),
        ],
        drop_deletes(entries, handle) && handle.kind == ResourceKind::Capability
            ==> remove_actions(entries, handle) == Seq::<Action>::empty(),
{
    if drop_deletes(entries, handle) {
        let own = if handle.kind == ResourceKind::Capability {
            Seq::<Action>::empty()
        } else {
            seq![Action::removed(handle.kind, handle.rep)]
        };
        if cascades(entries, handle) {
            let referent = seq![
                Action::removed(
                    referent_kind(handle.kind),
                    reference_of(entries[handle.rep].data)->0,
                ),
            ];
            assert(remove_actions(entries, handle) =~= own + referent);
        } else {
            assert(remove_actions(entries, handle) =~= own + Seq::<Action>::empty());
        }
    }
}

/// Each call that creates or removes exactly one scene resource queues
/// exactly one action, the one that matches it, and the actions stand in the
/// queue in the order of the calls: after `k` such calls on an empty queue,
/// the queue holds exactly `k` actions, the `j`-th of them matching the
/// `j`-th call, and that is what the drain reads.
pub proof fn lemma_one_action_per_call(entries: Map<u32, EntryView>, calls: Seq<HostCall>)
    requires
        forall|j: int|
            0 <= j < calls.len() ==> succeeds(
                after_calls(entries, #[trigger] calls.take(j)),
                calls[j],
            ) && changes_one(after_calls(entries, calls.take(j)), calls[j]),
    ensures
        actions_of(entries, calls).len() == calls.len(),
        forall|j: int|
            0 <= j < calls.len() ==> actions_of(entries, calls)[j] == matching(
                #[trigger] calls[j],
            ),
        Seq::<Action>::empty() + actions_of(entries, calls) == actions_of(entries, calls),
    decreases calls.len(),
{
    if calls.len() > 0 {
        let init = calls.drop_last();
        let last = calls.last();
        assert forall|j: int| 0 <= j < init.len() implies succeeds(
            after_calls(entries, #[trigger] init.take(j)),
            init[j],
        ) && changes_one(after_calls(entries, init.take(j)), init[j]) by {
            assert(init.take(j) =~= calls.take(j));
        }
        lemma_one_action_per_call(entries, init);
        // The last call is made at the entries that the calls before it left.
        assert(calls.take(calls.len() - 1) =~= init);
        let before = after_calls(entries, init);
        assert(succeeds(before, last) && changes_one(before, last));
        match last {
            HostCall::Create { capability, kind, id } => {},
            HostCall::Remove { handle } => {
                lemma_removal_reports(before, handle);
            },
        }
        assert(call_actions(before, last) == seq![matching(last)]);
        let all = actions_of(entries, calls);
        assert(all == actions_of(entries, init) + seq![matching(last)]);
        assert forall|j: int| 0 <= j < calls.len() implies all[j] == matching(
            #[trigger] calls[j],
        ) by {
            if j < init.len() {
                assert(all[j] == actions_of(entries, init)[j]);
                assert(calls[j] == init[j]);
            }
        }
    }
    assert(Seq::<Action>::empty() + actions_of(entries, calls) =~= actions_of(entries, calls));
}

} // verus!
