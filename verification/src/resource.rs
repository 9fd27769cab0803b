//! Handles, resource kinds and the entries of the resource table.

use vstd::prelude::*;

use crate::refcount::RefCountCell;
use crate::scene::{Material, MaterialView, Mesh, MeshView, Node, NodeView, Primitive};

verus! {

/// The type tag of a resource.
#[derive(Clone, Copy, Debug, PartialEq, Eq, Structural)]
pub enum ResourceKind {
    Node,
    Mesh,
    Primitive,
    Material,
    /// The token that grants a script access to the scene graph.
    Capability,
}

/// Names one resource of the table. Any number of copies may exist at once;
/// none of them owns the data.
#[derive(Clone, Copy, Debug, PartialEq, Eq, Structural)]
pub struct Handle {
    pub rep: u32,
    pub kind: ResourceKind,
}

impl Handle {
    /// A handle for the resource `rep` of the given kind.
    pub fn new(rep: u32, kind: ResourceKind) -> (handle: Handle)
        ensures
            handle.rep == rep,
            handle.kind == kind,
    {
        Handle { rep, kind }
    }

    /// The id of the resource that this handle names.
    pub fn rep(&self) -> (rep: u32)
        ensures
            rep == self.rep,
    {
        self.rep
    }
}

/// Why an operation on the resource table failed.
#[derive(Clone, Copy, Debug, PartialEq, Eq, Structural)]
pub enum ResourceError {
    /// The handle names no live resource of its kind.
    ResourceNotFound,
    /// The table has no free id left.
    TableFull,
}

/// The data of one resource.
pub enum ResourceData {
    Node(Node),
    Mesh(Mesh),
    Primitive(Primitive),
    Material(Material),
    /// An opaque marker without scene data.
    Capability,
}

/// What a [`ResourceData`] holds, as plain values.
pub enum DataView {
    Node(NodeView),
    Mesh(MeshView),
    Primitive(Primitive),
    Material(MaterialView),
    Capability,
}

impl DataView {
    pub open spec fn kind(self) -> ResourceKind {
        match self {
            DataView::Node(_) => ResourceKind::Node,
            DataView::Mesh(_) => ResourceKind::Mesh,
            DataView::Primitive(_) => ResourceKind::Primitive,
            DataView::Material(_) => ResourceKind::Material,
            DataView::Capability => ResourceKind::Capability,
        }
    }
}

impl View for ResourceData {
    type V = DataView;

    open spec fn view(&self) -> DataView {
        match self {
            ResourceData::Node(node) => DataView::Node(node@),
            ResourceData::Mesh(mesh) => DataView::Mesh(mesh@),
            ResourceData::Primitive(primitive) => DataView::Primitive(*primitive),
            ResourceData::Material(material) => DataView::Material(material@),
            ResourceData::Capability => DataView::Capability,
        }
    }
}

impl ResourceData {
    /// The type tag of this data.
    pub fn kind(&self) -> (kind: ResourceKind)
        ensures
            kind == self@.kind(),
    {
        match self {
            ResourceData::Node(_) => ResourceKind::Node,
            ResourceData::Mesh(_) => ResourceKind::Mesh,
            ResourceData::Primitive(_) => ResourceKind::Primitive,
            ResourceData::Material(_) => ResourceKind::Material,
            ResourceData::Capability => ResourceKind::Capability,
        }
    }
}

/// One entry of the resource table: the data and the number of holders.
pub struct Entry {
    pub data: ResourceData,
    pub ref_count: RefCountCell,
}

/// What an [`Entry`] holds, as plain values.
pub struct EntryView {
    pub data: DataView,
    pub ref_count: nat,
}

impl View for Entry {
    type V = EntryView;

    open spec fn view(&self) -> EntryView {
        EntryView { data: self.data@, ref_count: self.ref_count@ }
    }
}

/// Whether `handle` names a live entry of `entries`, of the handle's kind.
pub open spec fn live(entries: Map<u32, EntryView>, handle: Handle) -> bool {
    entries.dom().contains(handle.rep) && entries[handle.rep].data.kind() == handle.kind
}

/// Whether the resource that `handle` names, if it is live, can count one
/// more holder.
pub open spec fn has_room(entries: Map<u32, EntryView>, handle: Handle) -> bool {
    live(entries, handle) ==> entries[handle.rep].ref_count < usize::MAX
}

/// The entries with the reference count of `rep` set to `count`.
pub open spec fn with_ref_count(entries: Map<u32, EntryView>, rep: u32, count: nat) -> Map<
    u32,
    EntryView,
> {
    entries.insert(rep, EntryView { data: entries[rep].data, ref_count: count })
}

/// The entries after one more handle to the live resource `rep` was made.
pub open spec fn after_clone(entries: Map<u32, EntryView>, rep: u32) -> Map<u32, EntryView> {
    with_ref_count(entries, rep, entries[rep].ref_count + 1)
}

/// The entries after one handle to the live resource `rep` was dropped: a
/// count of 0 stays, a count of 2 falls to 1 and the entry is deleted, any
/// other count falls by 1.
pub open spec fn after_drop(entries: Map<u32, EntryView>, rep: u32) -> Map<u32, EntryView> {
    let count = entries[rep].ref_count;
    if count == 0 {
        entries
    } else if count == 2 {
        entries.remove(rep)
    } else {
        with_ref_count(entries, rep, (count - 1) as nat)
    }
}

} // verus!
