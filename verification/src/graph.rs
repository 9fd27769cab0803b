//! The scene graph as a mathematical object: what each host function does to
//! the entries of the table, and the invariant that ties a node to its
//! relatives.

use vstd::prelude::*;

use crate::actions::{Action, Payload};
use crate::resource::{
    after_clone, after_drop, live, DataView, EntryView, Handle, ResourceKind,
};
use crate::scene::{MaterialView, MeshView, NodeView, Primitive};

verus! {

/// Whether `capability` grants access to the scene graph: it names a live
/// capability.
pub open spec fn grants_access(entries: Map<u32, EntryView>, capability: Handle) -> bool {
    capability.kind == ResourceKind::Capability && live(entries, capability)
}

/// The entries after a resource with the data `data` was created under the
/// id `id`: the table holds it, and so does the handle of its creator.
pub open spec fn after_create(entries: Map<u32, EntryView>, id: u32, data: DataView) -> Map<
    u32,
    EntryView,
> {
    entries.insert(id, EntryView { data, ref_count: 2 })
}

/// Whether `id` names a live node.
pub open spec fn is_node(entries: Map<u32, EntryView>, id: u32) -> bool {
    entries.dom().contains(id) && entries[id].data is Node
}

/// The node with the id `id`.
pub open spec fn node(entries: Map<u32, EntryView>, id: u32) -> NodeView {
    entries[id].data->Node_0
}

/// The entries with the data of `id` replaced; its reference count stays.
pub open spec fn with_data(entries: Map<u32, EntryView>, id: u32, data: DataView) -> Map<
    u32,
    EntryView,
> {
    entries.insert(id, EntryView { data, ref_count: entries[id].ref_count })
}

/// The entries with the node `id` replaced by `node`.
pub open spec fn with_node(entries: Map<u32, EntryView>, id: u32, node: NodeView) -> Map<
    u32,
    EntryView,
> {
    with_data(entries, id, DataView::Node(node))
}

/// `node` with another parent.
pub open spec fn with_parent(node: NodeView, parent: Option<u32>) -> NodeView {
    NodeView { parent, ..node }
}

/// `node` with other children.
pub open spec fn with_children(node: NodeView, children: Set<u32>) -> NodeView {
    NodeView { children, ..node }
}

/// Parent and child links agree in both directions: the parent of a live
/// node is a live node that lists it as a child, and every child that a live
/// node lists is a live node with that node as its parent.
pub open spec fn links_consistent(entries: Map<u32, EntryView>) -> bool {
    &&& forall|c: u32| #[trigger]
        is_node(entries, c) && node(entries, c).parent is Some ==> is_node(
            entries,
            node(entries, c).parent->0,
        ) && node(entries, node(entries, c).parent->0).children.contains(c)
    &&& forall|p: u32, c: u32|
        is_node(entries, p) && #[trigger] node(entries, p).children.contains(c) ==> is_node(
            entries,
            c,
        ) && node(entries, c).parent == Some(p)
}

/// The entries after `child` left the children of `parent`, where `parent`
/// names a live node; otherwise the entries as they are.
pub open spec fn without_child(
    entries: Map<u32, EntryView>,
    parent: Option<u32>,
    child: u32,
) -> Map<u32, EntryView> {
    if parent is Some && is_node(entries, parent->0) {
        let former = node(entries, parent->0);
        with_node(entries, parent->0, with_children(former, former.children.remove(child)))
    } else {
        entries
    }
}

/// The entries after `child` became a child of `parent`: it leaves the
/// children of its former parent, joins those of `parent`, and has `parent`
/// as its parent.
pub open spec fn after_add_child(entries: Map<u32, EntryView>, parent: u32, child: u32) -> Map<
    u32,
    EntryView,
> {
    let detached = without_child(entries, node(entries, child).parent, child);
    let attached = with_node(
        detached,
        parent,
        with_children(node(detached, parent), node(detached, parent).children.insert(child)),
    );
    with_node(attached, child, with_parent(node(attached, child), Some(parent)))
}

/// The entries after `child` left `parent`: it is no child of `parent` any
/// more and has no parent.
pub open spec fn after_remove_child(entries: Map<u32, EntryView>, parent: u32, child: u32) -> Map<
    u32,
    EntryView,
> {
    let detached = with_node(
        entries,
        parent,
        with_children(node(entries, parent), node(entries, parent).children.remove(child)),
    );
    with_node(detached, child, with_parent(node(detached, child), None))
}

/// The entries after every live node among `orphans` lost its parent.
pub open spec fn orphaned(entries: Map<u32, EntryView>, orphans: Set<u32>) -> Map<u32, EntryView> {
    Map::new(
        |id: u32| entries.dom().contains(id),
        |id: u32|
            if orphans.contains(id) && entries[id].data is Node {
                EntryView {
                    data: DataView::Node(with_parent(node(entries, id), None)),
                    ref_count: entries[id].ref_count,
                }
            } else {
                entries[id]
            },
    )
}

/// The entries after the links of a deleted node were cut: the node leaves
/// the children of its parent, and its children have no parent.
pub open spec fn unlinked(entries: Map<u32, EntryView>, id: u32, deleted: NodeView) -> Map<
    u32,
    EntryView,
> {
    orphaned(without_child(entries, deleted.parent, id), deleted.children)
}

/// The reference that a resource holds on another one: the mesh of a node,
/// the material of a primitive.
pub open spec fn reference_of(data: DataView) -> Option<u32> {
    match data {
        DataView::Node(node) => node.mesh,
        DataView::Primitive(primitive) => primitive.material,
        _ => None,
    }
}

/// The kind of resource that a resource of kind `kind` refers to.
pub open spec fn referent_kind(kind: ResourceKind) -> ResourceKind {
    match kind {
        ResourceKind::Node => ResourceKind::Mesh,
        _ => ResourceKind::Material,
    }
}

/// `data` with its reference replaced.
pub open spec fn with_reference(data: DataView, target: Option<u32>) -> DataView {
    match data {
        DataView::Node(node) => DataView::Node(NodeView { mesh: target, ..node }),
        DataView::Primitive(primitive) => DataView::Primitive(Primitive { material: target }),
        other => other,
    }
}

/// `data` with another name. A primitive and a capability have no name.
pub open spec fn with_name(data: DataView, name: Seq<char>) -> DataView {
    match data {
        DataView::Node(node) => DataView::Node(NodeView { name, ..node }),
        DataView::Mesh(mesh) => DataView::Mesh(MeshView { name, ..mesh }),
        DataView::Material(material) => DataView::Material(MaterialView { name, ..material }),
        other => other,
    }
}

/// Whether resources of the kind `kind` have a name.
pub open spec fn is_named(kind: ResourceKind) -> bool {
    kind == ResourceKind::Node || kind == ResourceKind::Mesh || kind == ResourceKind::Material
}

/// The id that an optional handle names.
pub open spec fn rep_of(target: Option<Handle>) -> Option<u32> {
    match target {
        Some(handle) => Some(handle.rep),
        None => None,
    }
}

/// Whether giving up the reference to `target` drops a handle: it does when
/// `target` names a live resource of the kind `kind`.
pub open spec fn releases(
    entries: Map<u32, EntryView>,
    target: Option<u32>,
    kind: ResourceKind,
) -> bool {
    target is Some && live(entries, Handle { rep: target->0, kind })
}

/// The entries after the reference to `target` was given up.
pub open spec fn after_release(
    entries: Map<u32, EntryView>,
    target: Option<u32>,
    kind: ResourceKind,
) -> Map<u32, EntryView> {
    if releases(entries, target, kind) {
        after_drop(entries, target->0)
    } else {
        entries
    }
}

/// The actions that giving up the reference to `target` emits: the removal of
/// the referent, if that was its last holder.
pub open spec fn release_actions(
    entries: Map<u32, EntryView>,
    target: Option<u32>,
    kind: ResourceKind,
) -> Seq<Action> {
    if releases(entries, target, kind) && entries[target->0].ref_count == 2 {
        seq![Action::removed(kind, target->0)]
    } else {
        Seq::empty()
    }
}

/// The entries after `holder` was pointed at `target`, before the reference
/// it held until then is given up: the referent counts one more holder.
pub open spec fn after_point(
    entries: Map<u32, EntryView>,
    holder: Handle,
    target: Option<u32>,
) -> Map<u32, EntryView> {
    let acquired = if target is Some {
        after_clone(entries, target->0)
    } else {
        entries
    };
    with_data(acquired, holder.rep, with_reference(acquired[holder.rep].data, target))
}

/// The entries after the reference of `holder` was set to `target`: the new
/// referent counts one more holder, and the reference held until then is
/// given up.
pub open spec fn after_set_reference(
    entries: Map<u32, EntryView>,
    holder: Handle,
    target: Option<u32>,
) -> Map<u32, EntryView> {
    after_release(
        after_point(entries, holder, target),
        reference_of(entries[holder.rep].data),
        referent_kind(holder.kind),
    )
}

/// The actions that setting the reference of `holder` emits: the change
/// itself, followed by the removal of the former referent if that lost its
/// last holder.
pub open spec fn set_reference_actions(
    entries: Map<u32, EntryView>,
    holder: Handle,
    target: Option<u32>,
    payload: Payload,
) -> Seq<Action> {
    seq![Action::mutated(holder.kind, holder.rep, payload)] + release_actions(
        after_point(entries, holder, target),
        reference_of(entries[holder.rep].data),
        referent_kind(holder.kind),
    )
}

/// Whether dropping `handle` deletes its resource.
pub open spec fn drop_deletes(entries: Map<u32, EntryView>, handle: Handle) -> bool {
    live(entries, handle) && entries[handle.rep].ref_count == 2
}

/// The entries once the resource of `handle` is deleted and its links are
/// cut; the reference it held is still counted.
pub open spec fn after_unlink(entries: Map<u32, EntryView>, handle: Handle) -> Map<u32, EntryView> {
    match entries[handle.rep].data {
        DataView::Node(deleted) => unlinked(entries.remove(handle.rep), handle.rep, deleted),
        _ => entries.remove(handle.rep),
    }
}

/// The entries after `handle` was dropped through the scene graph. Where
/// that deletes the resource, its links are cut and the reference it held is
/// given up.
pub open spec fn after_remove(entries: Map<u32, EntryView>, handle: Handle) -> Map<u32, EntryView> {
    if drop_deletes(entries, handle) {
        after_release(
            after_unlink(entries, handle),
            reference_of(entries[handle.rep].data),
            referent_kind(handle.kind),
        )
    } else {
        after_drop(entries, handle.rep)
    }
}

/// The actions that dropping `handle` through the scene graph emits: none
/// unless the resource is deleted; then its removal, unless it is a
/// capability, followed by the removal of the resource it referred to if
/// that lost its last holder.
pub open spec fn remove_actions(entries: Map<u32, EntryView>, handle: Handle) -> Seq<Action> {
    if drop_deletes(entries, handle) {
        (if handle.kind == ResourceKind::Capability {
            Seq::<Action>::empty()
        } else {
            seq![Action::removed(handle.kind, handle.rep)]
        }) + release_actions(
            after_unlink(entries, handle),
            reference_of(entries[handle.rep].data),
            referent_kind(handle.kind),
        )
    } else {
        Seq::empty()
    }
}

/// Entries whose nodes have the same relatives are consistent together.
pub proof fn lemma_same_relatives(before: Map<u32, EntryView>, after: Map<u32, EntryView>)
    requires
        links_consistent(before),
        forall|id: u32| is_node(after, id) ==> #[trigger] is_node(before, id),
        forall|id: u32|
            #[trigger] is_node(before, id) ==> is_node(after, id) && node(after, id).parent == node(
                before,
                id,
            ).parent && node(after, id).children == node(before, id).children,
    ensures
        links_consistent(after),
{
    assert forall|c: u32| #[trigger]
        is_node(after, c) && node(after, c).parent is Some implies is_node(
        after,
        node(after, c).parent->0,
    ) && node(after, node(after, c).parent->0).children.contains(c) by {
        assert(is_node(before, c));
    }
    assert forall|p: u32, c: u32|
        is_node(after, p) && #[trigger] node(after, p).children.contains(c) implies is_node(
        after,
        c,
    ) && node(after, c).parent == Some(p) by {
        assert(is_node(before, p));
    }
}

/// A new resource under a free id keeps the links consistent, if it is a
/// node without relatives or no node at all.
pub proof fn lemma_create_consistent(entries: Map<u32, EntryView>, id: u32, data: DataView)
    requires
        links_consistent(entries),
        !entries.dom().contains(id),
        data is Node ==> data->Node_0.parent is None && data->Node_0.children
            == Set::<u32>::empty(),
    ensures
        links_consistent(after_create(entries, id, data)),
{
    let after = after_create(entries, id, data);
    assert forall|c: u32| #[trigger]
        is_node(after, c) && node(after, c).parent is Some implies is_node(
        after,
        node(after, c).parent->0,
    ) && node(after, node(after, c).parent->0).children.contains(c) by {
        // The new node has no parent; every other node was there before.
        assert(is_node(entries, c));
    }
    assert forall|p: u32, c: u32|
        is_node(after, p) && #[trigger] node(after, p).children.contains(c) implies is_node(
        after,
        c,
    ) && node(after, c).parent == Some(p) by {
        // The new node lists no child; every other node listed it before.
        assert(node(entries, p).children.contains(c));
    }
}

/// Making `child` a child of `parent` keeps the links consistent.
pub proof fn lemma_add_child_consistent(entries: Map<u32, EntryView>, parent: u32, child: u32)
    requires
        links_consistent(entries),
        is_node(entries, parent),
        is_node(entries, child),
    ensures
        links_consistent(after_add_child(entries, parent, child)),
{
    let after = after_add_child(entries, parent, child);
    assert forall|id: u32| is_node(after, id) == #[trigger] is_node(entries, id) by {}
    assert forall|c: u32| #[trigger]
        is_node(after, c) && node(after, c).parent is Some implies is_node(
        after,
        node(after, c).parent->0,
    ) && node(after, node(after, c).parent->0).children.contains(c) by {
        // Every node but `child` has the parent it had, which lists it still.
        assert(is_node(entries, c));
    }
    assert forall|p: u32, c: u32|
        is_node(after, p) && #[trigger] node(after, p).children.contains(c) implies is_node(
        after,
        c,
    ) && node(after, c).parent == Some(p) by {
        // A child other than `child` was listed by the same node before.
        if c != child {
            assert(node(entries, p).children.contains(c));
        }
    }
}

/// Taking `child` out of the children of `parent` keeps the links
/// consistent.
pub proof fn lemma_remove_child_consistent(entries: Map<u32, EntryView>, parent: u32, child: u32)
    requires
        links_consistent(entries),
        is_node(entries, parent),
        node(entries, parent).children.contains(child),
    ensures
        links_consistent(after_remove_child(entries, parent, child)),
{
    let after = after_remove_child(entries, parent, child);
    assert forall|id: u32| is_node(after, id) == #[trigger] is_node(entries, id) by {}
    assert forall|c: u32| #[trigger]
        is_node(after, c) && node(after, c).parent is Some implies is_node(
        after,
        node(after, c).parent->0,
    ) && node(after, node(after, c).parent->0).children.contains(c) by {
        // A node that has a parent afterwards is not `child`.
        assert(is_node(entries, c));
    }
    assert forall|p: u32, c: u32|
        is_node(after, p) && #[trigger] node(after, p).children.contains(c) implies is_node(
        after,
        c,
    ) && node(after, c).parent == Some(p) by {
        // No node gained a child.
        assert(node(entries, p).children.contains(c));
    }
}

/// Deleting a resource and cutting its links keeps the links consistent.
pub proof fn lemma_unlink_consistent(entries: Map<u32, EntryView>, handle: Handle)
    requires
        links_consistent(entries),
        live(entries, handle),
    ensures
        links_consistent(after_unlink(entries, handle)),
{
    let after = after_unlink(entries, handle);
    let id = handle.rep;
    assert forall|other: u32| is_node(after, other) == (other != id && #[trigger] is_node(
        entries,
        other,
    )) by {}
    match entries[id].data {
        DataView::Node(deleted) => {
            assert forall|c: u32| #[trigger]
                is_node(after, c) && node(after, c).parent is Some implies is_node(
                after,
                node(after, c).parent->0,
            ) && node(after, node(after, c).parent->0).children.contains(c) by {
                // A node that keeps its parent was no child of the deleted
                // node, so its parent is still there and lists it still.
                assert(is_node(entries, c));
            }
            assert forall|p: u32, c: u32|
                is_node(after, p) && #[trigger] node(after, p).children.contains(
                    c,
                ) implies is_node(after, c) && node(after, c).parent == Some(p) by {
                // A child that is listed afterwards was listed by the same
                // node before, so it was no child of the deleted node.
                assert(is_node(entries, c));
                if deleted.children.contains(c) {
                    assert(node(entries, id).children.contains(c));
                }
            }
        },
        _ => {
            assert forall|c: u32| #[trigger]
                is_node(after, c) && node(after, c).parent is Some implies is_node(
                after,
                node(after, c).parent->0,
            ) && node(after, node(after, c).parent->0).children.contains(c) by {
                assert(is_node(entries, c));
            }
            assert forall|p: u32, c: u32|
                is_node(after, p) && #[trigger] node(after, p).children.contains(
                    c,
                ) implies is_node(after, c) && node(after, c).parent == Some(p) by {
                assert(node(entries, p).children.contains(c));
            }
        },
    }
}

/// A drop that deletes a scene resource reports the removal of that
/// resource exactly once, before anything else it reports; a drop that
/// deletes nothing reports nothing.
pub proof fn lemma_remove_reports_once(entries: Map<u32, EntryView>, handle: Handle)
    requires
        live(entries, handle),
        handle.kind != ResourceKind::Capability,
    ensures
        !drop_deletes(entries, handle) ==> remove_actions(entries, handle)
            == Seq::<Action>::empty(),
        drop_deletes(entries, handle) ==> remove_actions(entries, handle).len() >= 1
            && remove_actions(entries, handle)[0] == Action::removed(handle.kind, handle.rep),
        forall|i: int|
            0 < i < remove_actions(entries, handle).len() ==> #[trigger] remove_actions(
                entries,
                handle,
            )[i] != Action::removed(handle.kind, handle.rep),
{
}

/// Setting a reference makes the holder one more holder of the referent:
/// the referent stays live and counts one holder more than before, so that
/// dropping every handle that existed before cannot delete it while the
/// reference stands.
pub proof fn lemma_reference_holds_referent(
    entries: Map<u32, EntryView>,
    holder: Handle,
    target: u32,
)
    requires
        holder.kind == ResourceKind::Node || holder.kind == ResourceKind::Primitive,
        live(entries, holder),
        live(entries, Handle { rep: target, kind: referent_kind(holder.kind) }),
        reference_of(entries[holder.rep].data) != Some(target),
    ensures
        live(
            after_set_reference(entries, holder, Some(target)),
            Handle { rep: target, kind: referent_kind(holder.kind) },
        ),
        after_set_reference(entries, holder, Some(target))[target].ref_count
            == entries[target].ref_count + 1,
        reference_of(after_set_reference(entries, holder, Some(target))[holder.rep].data) == Some(
            target,
        ),
{
}

} // verus!
