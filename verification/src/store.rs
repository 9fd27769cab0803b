//! The scene-graph store: the host functions through which scripts create,
//! remove and change scene resources. Each one changes the resource table at
//! once and queues the action that reports the change.

use vstd::prelude::*;

use crate::actions::{Action, ActionQueue, Payload};
use crate::graph::{
    after_add_child, after_create, after_point, after_release, after_remove,
    after_remove_child, after_set_reference, drop_deletes, grants_access, is_named, is_node,
    lemma_add_child_consistent, lemma_create_consistent, lemma_remove_child_consistent,
    lemma_same_relatives, lemma_unlink_consistent, links_consistent, node, orphaned,
    referent_kind, release_actions, remove_actions, rep_of, set_reference_actions, unlinked,
    with_data, with_name, with_node, without_child,
};
use crate::math::{Color, Transform};
use crate::resource::{
    after_clone, has_room, live, DataView, EntryView, Handle, ResourceData, ResourceError,
    ResourceKind,
};
use crate::scene::{Material, MaterialView, Mesh, MeshView, Node, NodeView, Primitive};
use crate::table::Table;

verus! {

/// Lends out the node with the id `id`, if there is one.
fn node_mut(table: &mut Table, id: u32) -> (r: Option<&mut Node>)
    requires
        old(table).wf(),
    ensures
        final(table).wf(),
        final(table).slots() == old(table).slots(),
        r is Some <==> is_node(old(table)@, id),
        r is None ==> final(table)@ == old(table)@,
        r is Some ==> (*r->0)@ == node(old(table)@, id) && final(table)@ == with_node(
            old(table)@,
            id,
            (*final(r->0))@,
        ),
{
    match table.entry_mut(id) {
        Some(entry) => match &mut entry.data {
            ResourceData::Node(node) => Some(node),
            _ => None,
        },
        None => None,
    }
}

/// The node with the id `id`, if there is one.
fn node_ref(table: &Table, id: u32) -> (r: Option<&Node>)
    ensures
        r is Some <==> is_node(table@, id),
        r is Some ==> (*r->0)@ == node(table@, id),
{
    match table.entry(id) {
        Some(entry) => match &entry.data {
            ResourceData::Node(node) => Some(node),
            _ => None,
        },
        None => None,
    }
}

/// Cuts the links of the deleted node `id`: it leaves the children of its
/// parent, and its children lose their parent.
fn unlink(table: &mut Table, id: u32, deleted: &Node)
    requires
        old(table).wf(),
    ensures
        final(table).wf(),
        final(table).slots() == old(table).slots(),
        final(table)@ == unlinked(old(table)@, id, deleted@),
{
    match deleted.parent {
        Some(parent) => match node_mut(table, parent) {
            Some(node) => {
                node.children.remove(id);
            },
            None => {},
        },
        None => {},
    }
    let ghost base = table@;
    let ids = deleted.children.to_vec();
    let mut i: usize = 0;
    while i < ids.len()
        invariant
            i <= ids.len(),
            table.wf(),
            table.slots() == old(table).slots(),
            table@ == orphaned(base, ids@.take(i as int).to_set()),
        decreases ids.len() - i,
    {
        let child = ids[i];
        match node_mut(table, child) {
            Some(node) => {
                node.parent = None;
            },
            None => {},
        }
        proof {
            ids@.lemma_take_succ_push(i as int);
            ids@.take(i as int).lemma_push_to_set_commute(child);
        }
        i = i + 1;
    }
    assert(ids@.take(ids.len() as int) =~= ids@);
}

/// The kind of resource that a resource of kind `kind` refers to.
fn referent(kind: ResourceKind) -> (r: ResourceKind)
    ensures
        r == referent_kind(kind),
{
    match kind {
        ResourceKind::Node => ResourceKind::Mesh,
        _ => ResourceKind::Material,
    }
}

/// The state that the host keeps for the scripts of one world: the resource
/// table and the actions that wait to be applied to the world.
pub struct StoreState {
    table: Table,
    actions: ActionQueue,
}

impl StoreState {
    /// The live entries of the resource table, by id.
    pub closed spec fn entries(&self) -> Map<u32, EntryView> {
        self.table@
    }

    /// The actions that wait to be drained, oldest first.
    pub closed spec fn pending(&self) -> Seq<Action> {
        self.actions@
    }

    /// The number of slots that the resource table has made so far, the free
    /// ones among them. A new resource takes a free slot or makes one more,
    /// and the table has an id for it as long as this number fits an id.
    pub closed spec fn slots(&self) -> nat {
        self.table.slots()
    }

    /// The table is in order and the links between nodes are consistent.
    pub closed spec fn wf(&self) -> bool {
        self.table.wf() && links_consistent(self.table@)
    }

    /// What `wf` says of the links between nodes.
    pub proof fn lemma_wf_links(&self)
        requires
            self.wf(),
        ensures
            links_consistent(self.entries()),
    {
    }

    /// A store without resources and without waiting actions.
    pub fn new() -> (store: StoreState)
        ensures
            store.wf(),
            store.slots() == 0,
            (store.entries() == Map::<u32, EntryView>::empty()),
            store.pending() == Seq::<Action>::empty(),
    {
        StoreState { table: Table::new(), actions: ActionQueue::new() }
    }

    /// The data that `handle` names.
    pub fn get(&self, handle: &Handle) -> (r: Result<&ResourceData, ResourceError>)
        ensures
            r is Ok <==> live(self.entries(), *handle),
            r is Ok ==> (*r->Ok_0)@ == self.entries()[handle.rep].data,
            r is Err ==> r->Err_0 == ResourceError::ResourceNotFound,
    {
        self.table.get(handle)
    }

    /// The number of holders of the resource with the id `rep`, if it is live.
    pub fn ref_count(&self, rep: u32) -> (r: Option<usize>)
        ensures
            r is Some <==> self.entries().dom().contains(rep),
            r is Some ==> r->0 == self.entries()[rep].ref_count,
    {
        match self.table.entry(rep) {
            Some(entry) => Some(entry.ref_count.0),
            None => None,
        }
    }

    /// Makes a new handle to the resource that `handle` names: the resource
    /// counts one more holder. Nothing is reported.
    pub fn clone_handle(&mut self, handle: &Handle) -> (r: Result<Handle, ResourceError>)
        requires
            old(self).wf(),
            has_room(old(self).entries(), *handle),
        ensures
            final(self).wf(),
            final(self).slots() == old(self).slots(),
            final(self).pending() == old(self).pending(),
            r is Ok <==> live(old(self).entries(), *handle),
            r is Ok ==> r->Ok_0 == *handle && final(self).entries() == after_clone(
                old(self).entries(),
                handle.rep,
            ),
            r is Err ==> r->Err_0 == ResourceError::ResourceNotFound && final(self).entries()
                == old(self).entries(),
    {
        let ghost before = self.table@;
        let cloned = self.table.clone_handle(handle);
        proof {
            lemma_same_relatives(before, self.table@);
        }
        cloned
    }

    /// Takes the waiting actions out of the queue, in the order in which they
    /// were queued.
    pub fn drain_actions(&mut self) -> (drained: Vec<Action>)
        ensures
            drained@ == old(self).pending(),
            final(self).pending() == Seq::<Action>::empty(),
            final(self).entries() == old(self).entries(),
            final(self).slots() == old(self).slots(),
            old(self).wf() ==> final(self).wf(),
    {
        self.actions.drain()
    }

    /// Whether `capability` grants access to the scene graph.
    pub fn authorizes(&self, capability: &Handle) -> (granted: bool)
        ensures
            granted == grants_access(self.entries(), *capability),
    {
        capability.kind == ResourceKind::Capability && self.table.get(capability).is_ok()
    }

    /// Puts `data` into the table and makes the handle that its creator
    /// owns: the new entry counts the table's holding and that handle.
    fn insert_owned(&mut self, data: ResourceData) -> (r: Result<Handle, ResourceError>)
        requires
            old(self).wf(),
            data@ is Node ==> data@->Node_0.parent is None && data@->Node_0.children
                == Set::<u32>::empty(),
        ensures
            final(self).wf(),
            old(self).slots() <= u32::MAX ==> r is Ok,
            old(self).slots() <= final(self).slots() <= old(self).slots() + 1,
            final(self).pending() == old(self).pending(),
            match r {
                Ok(handle) => {
                    &&& handle.kind == data@.kind()
                    &&& !old(self).entries().dom().contains(handle.rep)
                    &&& final(self).entries() == after_create(
                        old(self).entries(),
                        handle.rep,
                        data@,
                    )
                },
                Err(error) => {
                    &&& error == ResourceError::TableFull
                    &&& final(self).entries() == old(self).entries()
                },
            },
    {
        let ghost before = self.table@;
        let created = match self.table.create(data) {
            Ok(handle) => handle,
            Err(error) => {
                return Err(error);
            },
        };
        match self.table.clone_handle(&created) {
            Ok(handle) => {
                proof {
                    lemma_create_consistent(before, created.rep, data@);
                    assert(self.table@ =~= after_create(before, created.rep, data@));
                }
                Ok(handle)
            },
            Err(error) => Err(error),
        }
    }

    /// Creates a node: no relatives, no mesh, the identity transform.
    /// The caller shows its capability; without a live one nothing is
    /// created.
    pub fn create_node(&mut self, capability: &Handle) -> (r: Result<Handle, ResourceError>)
        requires
            old(self).wf(),
        ensures
            final(self).wf(),
            grants_access(old(self).entries(), *capability) && old(self).slots() <= u32::MAX
                ==> r is Ok,
            old(self).slots() <= final(self).slots() <= old(self).slots() + 1,
            match r {
                Ok(handle) => {
                    &&& grants_access(old(self).entries(), *capability)
                    &&& handle.kind == ResourceKind::Node
                    &&& !old(self).entries().dom().contains(handle.rep)
                    &&& final(self).entries() == after_create(
                        old(self).entries(),
                        handle.rep,
                        DataView::Node(NodeView::fresh()),
                    )
                    &&& final(self).pending() == old(self).pending().push(
                        Action::created(ResourceKind::Node, handle.rep),
                    )
                },
                Err(error) => {
                    &&& final(self).entries() == old(self).entries()
                    &&& final(self).pending() == old(self).pending()
                    &&& error == if grants_access(old(self).entries(), *capability) {
                        ResourceError::TableFull
                    } else {
                        ResourceError::ResourceNotFound
                    }
                },
            },
    {
        if !self.authorizes(capability) {
            return Err(ResourceError::ResourceNotFound);
        }
        match self.insert_owned(ResourceData::Node(Node::default())) {
            Ok(handle) => {
                self.actions.send(Action::create(ResourceKind::Node, handle.rep));
                Ok(handle)
            },
            Err(error) => Err(error),
        }
    }

    /// Creates a mesh without primitives.
    /// The caller shows its capability; without a live one nothing is
    /// created.
    pub fn create_mesh(&mut self, capability: &Handle) -> (r: Result<Handle, ResourceError>)
        requires
            old(self).wf(),
        ensures
            final(self).wf(),
            grants_access(old(self).entries(), *capability) && old(self).slots() <= u32::MAX
                ==> r is Ok,
            old(self).slots() <= final(self).slots() <= old(self).slots() + 1,
            match r {
                Ok(handle) => {
                    &&& grants_access(old(self).entries(), *capability)
                    &&& handle.kind == ResourceKind::Mesh
                    &&& !old(self).entries().dom().contains(handle.rep)
                    &&& final(self).entries() == after_create(
                        old(self).entries(),
                        handle.rep,
                        DataView::Mesh(MeshView::fresh()),
                    )
                    &&& final(self).pending() == old(self).pending().push(
                        Action::created(ResourceKind::Mesh, handle.rep),
                    )
                },
                Err(error) => {
                    &&& final(self).entries() == old(self).entries()
                    &&& final(self).pending() == old(self).pending()
                    &&& error == if grants_access(old(self).entries(), *capability) {
                        ResourceError::TableFull
                    } else {
                        ResourceError::ResourceNotFound
                    }
                },
            },
    {
        if !self.authorizes(capability) {
            return Err(ResourceError::ResourceNotFound);
        }
        match self.insert_owned(ResourceData::Mesh(Mesh::default())) {
            Ok(handle) => {
                self.actions.send(Action::create(ResourceKind::Mesh, handle.rep));
                Ok(handle)
            },
            Err(error) => Err(error),
        }
    }

    /// Creates a primitive without a material.
    /// The caller shows its capability; without a live one nothing is
    /// created.
    pub fn create_primitive(&mut self, capability: &Handle) -> (r: Result<Handle, ResourceError>)
        requires
            old(self).wf(),
        ensures
            final(self).wf(),
            grants_access(old(self).entries(), *capability) && old(self).slots() <= u32::MAX
                ==> r is Ok,
            old(self).slots() <= final(self).slots() <= old(self).slots() + 1,
            match r {
                Ok(handle) => {
                    &&& grants_access(old(self).entries(), *capability)
                    &&& handle.kind == ResourceKind::Primitive
                    &&& !old(self).entries().dom().contains(handle.rep)
                    &&& final(self).entries() == after_create(
                        old(self).entries(),
                        handle.rep,
                        DataView::Primitive(Primitive { material: None }),
                    )
                    &&& final(self).pending() == old(self).pending().push(
                        Action::created(ResourceKind::Primitive, handle.rep),
                    )
                },
                Err(error) => {
                    &&& final(self).entries() == old(self).entries()
                    &&& final(self).pending() == old(self).pending()
                    &&& error == if grants_access(old(self).entries(), *capability) {
                        ResourceError::TableFull
                    } else {
                        ResourceError::ResourceNotFound
                    }
                },
            },
    {
        if !self.authorizes(capability) {
            return Err(ResourceError::ResourceNotFound);
        }
        match self.insert_owned(ResourceData::Primitive(Primitive::default())) {
            Ok(handle) => {
                self.actions.send(Action::create(ResourceKind::Primitive, handle.rep));
                Ok(handle)
            },
            Err(error) => Err(error),
        }
    }

    /// Creates a material: no name, opaque black.
    /// The caller shows its capability; without a live one nothing is
    /// created.
    pub fn create_material(&mut self, capability: &Handle) -> (r: Result<Handle, ResourceError>)
        requires
            old(self).wf(),
        ensures
            final(self).wf(),
            grants_access(old(self).entries(), *capability) && old(self).slots() <= u32::MAX
                ==> r is Ok,
            old(self).slots() <= final(self).slots() <= old(self).slots() + 1,
            match r {
                Ok(handle) => {
                    &&& grants_access(old(self).entries(), *capability)
                    &&& handle.kind == ResourceKind::Material
                    &&& !old(self).entries().dom().contains(handle.rep)
                    &&& final(self).entries() == after_create(
                        old(self).entries(),
                        handle.rep,
                        DataView::Material(MaterialView::fresh()),
                    )
                    &&& final(self).pending() == old(self).pending().push(
                        Action::created(ResourceKind::Material, handle.rep),
                    )
                },
                Err(error) => {
                    &&& final(self).entries() == old(self).entries()
                    &&& final(self).pending() == old(self).pending()
                    &&& error == if grants_access(old(self).entries(), *capability) {
                        ResourceError::TableFull
                    } else {
                        ResourceError::ResourceNotFound
                    }
                },
            },
    {
        if !self.authorizes(capability) {
            return Err(ResourceError::ResourceNotFound);
        }
        match self.insert_owned(ResourceData::Material(Material::default())) {
            Ok(handle) => {
                self.actions.send(Action::create(ResourceKind::Material, handle.rep));
                Ok(handle)
            },
            Err(error) => Err(error),
        }
    }

    /// Creates the token that grants a script access to the scene graph, and
    /// the handle that the script's instance owns. No action reports it: a
    /// capability is no scene data.
    pub fn create_capability(&mut self) -> (r: Result<Handle, ResourceError>)
        requires
            old(self).wf(),
        ensures
            final(self).wf(),
            old(self).slots() <= u32::MAX ==> r is Ok,
            old(self).slots() <= final(self).slots() <= old(self).slots() + 1,
            final(self).pending() == old(self).pending(),
            match r {
                Ok(handle) => {
                    &&& handle.kind == ResourceKind::Capability
                    &&& !old(self).entries().dom().contains(handle.rep)
                    &&& final(self).entries() == after_create(
                        old(self).entries(),
                        handle.rep,
                        DataView::Capability,
                    )
                },
                Err(error) => {
                    &&& error == ResourceError::TableFull
                    &&& final(self).entries() == old(self).entries()
                },
            },
    {
        self.insert_owned(ResourceData::Capability)
    }

    /// Gives up the reference to `target`: the handle that stood for it is
    /// dropped, and the removal of the referent is reported if that was its
    /// last holder.
    fn release(&mut self, target: Option<u32>, kind: ResourceKind)
        requires
            old(self).wf(),
            kind == ResourceKind::Mesh || kind == ResourceKind::Material,
        ensures
            final(self).wf(),
            final(self).slots() == old(self).slots(),
            final(self).entries() == after_release(old(self).entries(), target, kind),
            final(self).pending() == old(self).pending() + release_actions(
                old(self).entries(),
                target,
                kind,
            ),
    {
        let ghost before = self.table@;
        match target {
            Some(rep) => match self.table.drop_handle(Handle { rep, kind }) {
                Ok(deleted) => {
                    proof {
                        lemma_same_relatives(before, self.table@);
                    }
                    if deleted.is_some() {
                        self.actions.send(Action::remove(kind, rep));
                    }
                },
                Err(_) => {},
            },
            None => {},
        }
    }

    /// Drops `handle`. When that leaves only the table's own holding, the
    /// resource is deleted: a node leaves its parent and its children lose
    /// theirs, the removal is reported, and the reference that the resource
    /// held is given up. The result says whether the resource was deleted.
    pub fn remove(&mut self, handle: Handle) -> (r: Result<bool, ResourceError>)
        requires
            old(self).wf(),
        ensures
            final(self).wf(),
            final(self).slots() == old(self).slots(),
            match r {
                Ok(deleted) => {
                    &&& live(old(self).entries(), handle)
                    &&& deleted == drop_deletes(old(self).entries(), handle)
                    &&& final(self).entries() == after_remove(old(self).entries(), handle)
                    &&& final(self).pending() == old(self).pending() + remove_actions(
                        old(self).entries(),
                        handle,
                    )
                },
                Err(error) => {
                    &&& !live(old(self).entries(), handle)
                    &&& error == ResourceError::ResourceNotFound
                    &&& final(self).entries() == old(self).entries()
                    &&& final(self).pending() == old(self).pending()
                },
            },
    {
        let ghost before = self.table@;
        let deleted = match self.table.drop_handle(handle) {
            Ok(deleted) => deleted,
            Err(error) => {
                return Err(error);
            },
        };
        match deleted {
            None => {
                proof {
                    lemma_same_relatives(before, self.table@);
                }
                Ok(false)
            },
            Some(entry) => {
                proof {
                    lemma_unlink_consistent(before, handle);
                }
                match entry.data {
                    ResourceData::Node(node) => {
                        unlink(&mut self.table, handle.rep, &node);
                        self.actions.send(Action::remove(handle.kind, handle.rep));
                        self.release(node.mesh, ResourceKind::Mesh);
                    },
                    ResourceData::Primitive(primitive) => {
                        self.actions.send(Action::remove(handle.kind, handle.rep));
                        self.release(primitive.material, ResourceKind::Material);
                    },
                    ResourceData::Capability => {},
                    _ => {
                        self.actions.send(Action::remove(handle.kind, handle.rep));
                    },
                }
                Ok(true)
            },
        }
    }

    /// Makes `child` a child of `parent`: it leaves the children of its
    /// former parent, if it had one.
    pub fn add_child(&mut self, parent: &Handle, child: &Handle) -> (r: Result<(), ResourceError>)
        requires
            old(self).wf(),
        ensures
            final(self).wf(),
            final(self).slots() == old(self).slots(),
            r is Ok <==> parent.kind == ResourceKind::Node && child.kind == ResourceKind::Node
                && live(old(self).entries(), *parent) && live(old(self).entries(), *child),
            r is Ok ==> final(self).entries() == after_add_child(
                old(self).entries(),
                parent.rep,
                child.rep,
            ) && final(self).pending() == old(self).pending().push(
                Action::mutated(ResourceKind::Node, child.rep, Payload::Parent(Some(parent.rep))),
            ),
            r is Err ==> r->Err_0 == ResourceError::ResourceNotFound && final(self).entries()
                == old(self).entries() && final(self).pending() == old(self).pending(),
    {
        if parent.kind != ResourceKind::Node || child.kind != ResourceKind::Node {
            return Err(ResourceError::ResourceNotFound);
        }
        if node_ref(&self.table, parent.rep).is_none() {
            return Err(ResourceError::ResourceNotFound);
        }
        let former = match node_ref(&self.table, child.rep) {
            Some(node) => node.parent,
            None => {
                return Err(ResourceError::ResourceNotFound);
            },
        };
        proof {
            lemma_add_child_consistent(self.table@, parent.rep, child.rep);
        }
        match former {
            Some(id) => match node_mut(&mut self.table, id) {
                Some(node) => {
                    node.children.remove(child.rep);
                },
                None => {},
            },
            None => {},
        }
        match node_mut(&mut self.table, parent.rep) {
            Some(node) => {
                node.children.insert(child.rep);
            },
            None => {},
        }
        match node_mut(&mut self.table, child.rep) {
            Some(node) => {
                node.parent = Some(parent.rep);
            },
            None => {},
        }
        self.actions.send(
            Action::mutate(ResourceKind::Node, child.rep, Payload::Parent(Some(parent.rep))),
        );
        Ok(())
    }

    /// Takes `child` out of the children of `parent`. The result says whether
    /// it was one of them; if it was not, nothing changes.
    pub fn remove_child(&mut self, parent: &Handle, child: &Handle) -> (r: Result<
        bool,
        ResourceError,
    >)
        requires
            old(self).wf(),
        ensures
            final(self).wf(),
            final(self).slots() == old(self).slots(),
            r is Ok <==> parent.kind == ResourceKind::Node && child.kind == ResourceKind::Node
                && live(old(self).entries(), *parent) && live(old(self).entries(), *child),
            match r {
                Ok(removed) => {
                    &&& removed == node(old(self).entries(), parent.rep).children.contains(
                        child.rep,
                    )
                    &&& final(self).entries() == if removed {
                        after_remove_child(old(self).entries(), parent.rep, child.rep)
                    } else {
                        old(self).entries()
                    }
                    &&& final(self).pending() == if removed {
                        old(self).pending().push(
                            Action::mutated(ResourceKind::Node, child.rep, Payload::Parent(None)),
                        )
                    } else {
                        old(self).pending()
                    }
                },
                Err(error) => {
                    &&& error == ResourceError::ResourceNotFound
                    &&& final(self).entries() == old(self).entries()
                    &&& final(self).pending() == old(self).pending()
                },
            },
    {
        if parent.kind != ResourceKind::Node || child.kind != ResourceKind::Node {
            return Err(ResourceError::ResourceNotFound);
        }
        if node_ref(&self.table, child.rep).is_none() {
            return Err(ResourceError::ResourceNotFound);
        }
        let listed = match node_ref(&self.table, parent.rep) {
            Some(node) => node.children.contains(child.rep),
            None => {
                return Err(ResourceError::ResourceNotFound);
            },
        };
        if !listed {
            return Ok(false);
        }
        proof {
            lemma_remove_child_consistent(self.table@, parent.rep, child.rep);
        }
        match node_mut(&mut self.table, parent.rep) {
            Some(node) => {
                node.children.remove(child.rep);
            },
            None => {},
        }
        match node_mut(&mut self.table, child.rep) {
            Some(node) => {
                node.parent = None;
            },
            None => {},
        }
        self.actions.send(Action::mutate(ResourceKind::Node, child.rep, Payload::Parent(None)));
        Ok(true)
    }

    /// Points the reference of `holder` at `target`: the mesh of a node, the
    /// material of a primitive. The new referent counts one more holder; the
    /// reference held until then is given up.
    fn set_reference(&mut self, holder: &Handle, target: Option<Handle>, payload: Payload) -> (r:
        Result<(), ResourceError>)
        requires
            old(self).wf(),
            holder.kind == ResourceKind::Node || holder.kind == ResourceKind::Primitive,
            target is Some ==> has_room(old(self).entries(), target->0),
        ensures
            final(self).wf(),
            final(self).slots() == old(self).slots(),
            r is Ok <==> live(old(self).entries(), *holder) && (target is Some ==> target->0.kind
                == referent_kind(holder.kind) && live(old(self).entries(), target->0)),
            r is Ok ==> final(self).entries() == after_set_reference(
                old(self).entries(),
                *holder,
                rep_of(target),
            ),
            r is Ok ==> final(self).pending() == old(self).pending() + set_reference_actions(
                old(self).entries(),
                *holder,
                rep_of(target),
                payload,
            ),
            r is Err ==> r->Err_0 == ResourceError::ResourceNotFound,
            r is Err ==> final(self).entries() == old(self).entries(),
            r is Err ==> final(self).pending() == old(self).pending(),
    {
        let ghost before = self.table@;
        let kind = referent(holder.kind);
        match self.table.entry(holder.rep) {
            Some(entry) => {
                if entry.data.kind() != holder.kind {
                    return Err(ResourceError::ResourceNotFound);
                }
            },
            None => {
                return Err(ResourceError::ResourceNotFound);
            },
        }
        let id = match target {
            Some(handle) => {
                if handle.kind != kind {
                    return Err(ResourceError::ResourceNotFound);
                }
                match self.table.clone_handle(&handle) {
                    Ok(_) => Some(handle.rep),
                    Err(error) => {
                        return Err(error);
                    },
                }
            },
            None => None,
        };
        let ghost acquired = self.table@;
        let former = match self.table.entry_mut(holder.rep) {
            Some(entry) => match &mut entry.data {
                ResourceData::Node(node) => {
                    let former = node.mesh;
                    node.mesh = id;
                    former
                },
                ResourceData::Primitive(primitive) => {
                    let former = primitive.material;
                    primitive.material = id;
                    former
                },
                _ => None,
            },
            None => None,
        };
        proof {
            lemma_same_relatives(before, acquired);
            lemma_same_relatives(acquired, self.table@);
        }
        self.actions.send(Action::mutate(holder.kind, holder.rep, payload));
        self.release(former, kind);
        Ok(())
    }

    /// Sets the mesh that `node` shows. The mesh must be live when it is set;
    /// the node then holds it, so that it stays live while the node refers to
    /// it.
    pub fn set_node_mesh(&mut self, node: &Handle, mesh: Option<Handle>) -> (r: Result<
        (),
        ResourceError,
    >)
        requires
            old(self).wf(),
            mesh is Some ==> has_room(old(self).entries(), mesh->0),
        ensures
            final(self).wf(),
            final(self).slots() == old(self).slots(),
            r is Ok <==> node.kind == ResourceKind::Node && live(old(self).entries(), *node) && (
            mesh is Some ==> mesh->0.kind == ResourceKind::Mesh && live(
                old(self).entries(),
                mesh->0,
            )),
            r is Ok ==> final(self).entries() == after_set_reference(
                old(self).entries(),
                *node,
                rep_of(mesh),
            ),
            r is Ok ==> final(self).pending() == old(self).pending() + set_reference_actions(
                old(self).entries(),
                *node,
                rep_of(mesh),
                Payload::Mesh(rep_of(mesh)),
            ),
            r is Err ==> r->Err_0 == ResourceError::ResourceNotFound,
            r is Err ==> final(self).entries() == old(self).entries(),
            r is Err ==> final(self).pending() == old(self).pending(),
    {
        if node.kind != ResourceKind::Node {
            return Err(ResourceError::ResourceNotFound);
        }
        let id = match mesh {
            Some(handle) => Some(handle.rep),
            None => None,
        };
        self.set_reference(node, mesh, Payload::Mesh(id))
    }

    /// Sets the material that `primitive` uses. The material must be live
    /// when it is set; the primitive then holds it, so that it stays live
    /// while the primitive refers to it.
    pub fn set_primitive_material(&mut self, primitive: &Handle, material: Option<Handle>) -> (r:
        Result<(), ResourceError>)
        requires
            old(self).wf(),
            material is Some ==> has_room(old(self).entries(), material->0),
        ensures
            final(self).wf(),
            final(self).slots() == old(self).slots(),
            r is Ok <==> primitive.kind == ResourceKind::Primitive && live(
                old(self).entries(),
                *primitive,
            ) && (material is Some ==> material->0.kind == ResourceKind::Material && live(
                old(self).entries(),
                material->0,
            )),
            r is Ok ==> final(self).entries() == after_set_reference(
                old(self).entries(),
                *primitive,
                rep_of(material),
            ),
            r is Ok ==> final(self).pending() == old(self).pending() + set_reference_actions(
                old(self).entries(),
                *primitive,
                rep_of(material),
                Payload::Material(rep_of(material)),
            ),
            r is Err ==> r->Err_0 == ResourceError::ResourceNotFound,
            r is Err ==> final(self).entries() == old(self).entries(),
            r is Err ==> final(self).pending() == old(self).pending(),
    {
        if primitive.kind != ResourceKind::Primitive {
            return Err(ResourceError::ResourceNotFound);
        }
        let id = match material {
            Some(handle) => Some(handle.rep),
            None => None,
        };
        self.set_reference(primitive, material, Payload::Material(id))
    }

    /// Sets the name of a node, a mesh or a material.
    pub fn set_name(&mut self, handle: &Handle, name: String) -> (r: Result<(), ResourceError>)
        requires
            old(self).wf(),
        ensures
            final(self).wf(),
            final(self).slots() == old(self).slots(),
            r is Ok <==> is_named(handle.kind) && live(old(self).entries(), *handle),
            r is Ok ==> final(self).entries() == with_data(
                old(self).entries(),
                handle.rep,
                with_name(old(self).entries()[handle.rep].data, name@),
            ) && final(self).pending() == old(self).pending().push(
                Action::mutated(handle.kind, handle.rep, Payload::Name(name)),
            ),
            r is Err ==> r->Err_0 == ResourceError::ResourceNotFound && final(self).entries()
                == old(self).entries() && final(self).pending() == old(self).pending(),
    {
        let ghost before = self.table@;
        let reported = name.clone();
        match self.table.get_mut(handle) {
            Ok(data) => match data {
                ResourceData::Node(found) => {
                    found.name = name;
                },
                ResourceData::Mesh(found) => {
                    found.name = name;
                },
                ResourceData::Material(found) => {
                    found.name = name;
                },
                _ => {
                    assert(before.insert(handle.rep, before[handle.rep]) =~= before);
                    return Err(ResourceError::ResourceNotFound);
                },
            },
            Err(error) => {
                return Err(error);
            },
        }
        proof {
            lemma_same_relatives(before, self.table@);
        }
        self.actions.send(Action::mutate(handle.kind, handle.rep, Payload::Name(reported)));
        Ok(())
    }

    /// Sets the transform of `node`.
    pub fn set_transform(&mut self, node: &Handle, transform: Transform) -> (r: Result<
        (),
        ResourceError,
    >)
        requires
            old(self).wf(),
        ensures
            final(self).wf(),
            final(self).slots() == old(self).slots(),
            r is Ok <==> node.kind == ResourceKind::Node && live(old(self).entries(), *node),
            r is Ok ==> final(self).entries() == with_node(
                old(self).entries(),
                node.rep,
                NodeView { transform, ..crate::graph::node(old(self).entries(), node.rep) },
            ) && final(self).pending() == old(self).pending().push(
                Action::mutated(ResourceKind::Node, node.rep, Payload::Transform(transform)),
            ),
            r is Err ==> r->Err_0 == ResourceError::ResourceNotFound && final(self).entries()
                == old(self).entries() && final(self).pending() == old(self).pending(),
    {
        if node.kind != ResourceKind::Node {
            return Err(ResourceError::ResourceNotFound);
        }
        let ghost before = self.table@;
        match node_mut(&mut self.table, node.rep) {
            Some(found) => {
                found.transform = transform;
            },
            None => {
                return Err(ResourceError::ResourceNotFound);
            },
        }
        proof {
            lemma_same_relatives(before, self.table@);
        }
        self.actions.send(
            Action::mutate(ResourceKind::Node, node.rep, Payload::Transform(transform)),
        );
        Ok(())
    }

    /// Sets the colour of `material`.
    pub fn set_color(&mut self, material: &Handle, color: Color) -> (r: Result<(), ResourceError>)
        requires
            old(self).wf(),
        ensures
            final(self).wf(),
            final(self).slots() == old(self).slots(),
            r is Ok <==> material.kind == ResourceKind::Material && live(
                old(self).entries(),
                *material,
            ),
            r is Ok ==> final(self).entries() == with_data(
                old(self).entries(),
                material.rep,
                DataView::Material(
                    MaterialView { color, ..old(self).entries()[material.rep].data->Material_0 },
                ),
            ) && final(self).pending() == old(self).pending().push(
                Action::mutated(ResourceKind::Material, material.rep, Payload::Color(color)),
            ),
            r is Err ==> r->Err_0 == ResourceError::ResourceNotFound && final(self).entries()
                == old(self).entries() && final(self).pending() == old(self).pending(),
    {
        let ghost before = self.table@;
        match self.table.get_mut(material) {
            Ok(data) => match data {
                ResourceData::Material(found) => {
                    found.color = color;
                },
                _ => {
                    assert(before.insert(material.rep, before[material.rep]) =~= before);
                    return Err(ResourceError::ResourceNotFound);
                },
            },
            Err(error) => {
                return Err(error);
            },
        }
        proof {
            lemma_same_relatives(before, self.table@);
        }
        self.actions.send(
            Action::mutate(ResourceKind::Material, material.rep, Payload::Color(color)),
        );
        Ok(())
    }

    /// Puts `primitive` among the primitives of `mesh`. The mesh does not
    /// hold the primitive: the link is an id, no handle.
    pub fn add_primitive(&mut self, mesh: &Handle, primitive: &Handle) -> (r: Result<
        (),
        ResourceError,
    >)
        requires
            old(self).wf(),
        ensures
            final(self).wf(),
            final(self).slots() == old(self).slots(),
            r is Ok <==> mesh.kind == ResourceKind::Mesh && primitive.kind
                == ResourceKind::Primitive && live(old(self).entries(), *mesh) && live(
                old(self).entries(),
                *primitive,
            ),
            r is Ok ==> final(self).entries() == with_data(
                old(self).entries(),
                mesh.rep,
                DataView::Mesh(
                    MeshView {
                        primitives: old(self).entries()[mesh.rep].data->Mesh_0.primitives.insert(
                            primitive.rep,
                        ),
                        ..old(self).entries()[mesh.rep].data->Mesh_0
                    },
                ),
            ) && final(self).pending() == old(self).pending().push(
                Action::mutated(
                    ResourceKind::Mesh,
                    mesh.rep,
                    Payload::PrimitiveAdded(primitive.rep),
                ),
            ),
            r is Err ==> r->Err_0 == ResourceError::ResourceNotFound && final(self).entries()
                == old(self).entries() && final(self).pending() == old(self).pending(),
    {
        if primitive.kind != ResourceKind::Primitive {
            return Err(ResourceError::ResourceNotFound);
        }
        if self.table.get(primitive).is_err() {
            return Err(ResourceError::ResourceNotFound);
        }
        let ghost before = self.table@;
        match self.table.get_mut(mesh) {
            Ok(data) => match data {
                ResourceData::Mesh(found) => {
                    found.primitives.insert(primitive.rep);
                },
                _ => {
                    assert(before.insert(mesh.rep, before[mesh.rep]) =~= before);
                    return Err(ResourceError::ResourceNotFound);
                },
            },
            Err(error) => {
                return Err(error);
            },
        }
        proof {
            lemma_same_relatives(before, self.table@);
        }
        self.actions.send(
            Action::mutate(ResourceKind::Mesh, mesh.rep, Payload::PrimitiveAdded(primitive.rep)),
        );
        Ok(())
    }

    /// Takes the primitive with the id `primitive` out of the primitives of
    /// `mesh`. The result says whether it was one of them; if it was not,
    /// nothing changes.
    pub fn remove_primitive(&mut self, mesh: &Handle, primitive: u32) -> (r: Result<
        bool,
        ResourceError,
    >)
        requires
            old(self).wf(),
        ensures
            final(self).wf(),
            final(self).slots() == old(self).slots(),
            r is Ok <==> mesh.kind == ResourceKind::Mesh && live(old(self).entries(), *mesh),
            r is Ok ==> r->Ok_0 == old(self).entries()[mesh.rep].data->Mesh_0.primitives.contains(
                primitive,
            ),
            r is Ok && r->Ok_0 ==> final(self).entries() == with_data(
                old(self).entries(),
                mesh.rep,
                DataView::Mesh(
                    MeshView {
                        primitives: old(self).entries()[mesh.rep].data->Mesh_0.primitives.remove(
                            primitive,
                        ),
                        ..old(self).entries()[mesh.rep].data->Mesh_0
                    },
                ),
            ) && final(self).pending() == old(self).pending().push(
                Action::mutated(ResourceKind::Mesh, mesh.rep, Payload::PrimitiveRemoved(primitive)),
            ),
            r is Ok && !r->Ok_0 ==> final(self).entries() == old(self).entries() && final(
                self).pending() == old(self).pending(),
            r is Err ==> r->Err_0 == ResourceError::ResourceNotFound && final(self).entries()
                == old(self).entries() && final(self).pending() == old(self).pending(),
    {
        let ghost before = self.table@;
        let removed = match self.table.get_mut(mesh) {
            Ok(data) => match data {
                ResourceData::Mesh(found) => found.primitives.remove(primitive),
                _ => {
                    assert(before.insert(mesh.rep, before[mesh.rep]) =~= before);
                    return Err(ResourceError::ResourceNotFound);
                },
            },
            Err(error) => {
                return Err(error);
            },
        };
        proof {
            lemma_same_relatives(before, self.table@);
        }
        if removed {
            self.actions.send(
                Action::mutate(
                    ResourceKind::Mesh,
                    mesh.rep,
                    Payload::PrimitiveRemoved(primitive),
                ),
            );
        } else {
            let ghost primitives = before[mesh.rep].data->Mesh_0.primitives;
            assert(primitives.remove(primitive) =~= primitives);
        }
        Ok(removed)
    }

    /// Drops the handle of a capability. Nothing is reported: a capability is
    /// no scene data. A handle of another kind, or one that names no live
    /// capability, is refused.
    pub fn remove_capability(&mut self, handle: Handle) -> (r: Result<bool, ResourceError>)
        requires
            old(self).wf(),
        ensures
            final(self).wf(),
            final(self).slots() == old(self).slots(),
            final(self).pending() == old(self).pending(),
            r is Ok <==> handle.kind == ResourceKind::Capability && live(
                old(self).entries(),
                handle,
            ),
            r is Ok ==> r->Ok_0 == drop_deletes(old(self).entries(), handle) && final(
                self).entries() == after_remove(old(self).entries(), handle),
            r is Err ==> r->Err_0 == ResourceError::ResourceNotFound && final(self).entries()
                == old(self).entries(),
    {
        if handle.kind != ResourceKind::Capability {
            return Err(ResourceError::ResourceNotFound);
        }
        let removed = self.remove(handle);
        removed
    }
}

} // verus!
