//! The scene-graph resources that scripts create and edit.

use vstd::prelude::*;

use crate::id_set::IdSet;
use crate::math::{Color, Transform};

verus! {

/// Surface appearance that primitives refer to.
pub struct Material {
    pub name: String,
    pub color: Color,
}

/// What a [`Material`] holds, as plain values.
pub struct MaterialView {
    pub name: Seq<char>,
    pub color: Color,
}

impl MaterialView {
    /// A material without a name, opaque black.
    pub open spec fn fresh() -> MaterialView {
        MaterialView { name: Seq::empty(), color: Color::opaque_black() }
    }
}

impl View for Material {
    type V = MaterialView;

    open spec fn view(&self) -> MaterialView {
        MaterialView { name: self.name@, color: self.color }
    }
}

impl Default for Material {
    fn default() -> (m: Material)
        ensures
            m@ == MaterialView::fresh(),
    {
        Material { name: String::new(), color: Color::default() }
    }
}

/// A named group of primitives.
pub struct Mesh {
    pub name: String,
    pub primitives: IdSet,
}

/// What a [`Mesh`] holds, as plain values.
pub struct MeshView {
    pub name: Seq<char>,
    pub primitives: Set<u32>,
}

impl MeshView {
    /// A mesh without a name and without primitives.
    pub open spec fn fresh() -> MeshView {
        MeshView { name: Seq::empty(), primitives: Set::empty() }
    }
}

impl View for Mesh {
    type V = MeshView;

    open spec fn view(&self) -> MeshView {
        MeshView { name: self.name@, primitives: self.primitives@ }
    }
}

impl Default for Mesh {
    fn default() -> (m: Mesh)
        ensures
            m@ == MeshView::fresh(),
    {
        Mesh { name: String::new(), primitives: IdSet::new() }
    }
}

/// One drawable part of a mesh.
#[derive(Clone, Copy, Debug, PartialEq, Eq)]
pub struct Primitive {
    pub material: Option<u32>,
}

impl Default for Primitive {
    fn default() -> (p: Primitive)
        ensures
            p.material is None,
    {
        Primitive { material: None }
    }
}

/// A node of the scene graph.
pub struct Node {
    pub children: IdSet,
    pub mesh: Option<u32>,
    pub name: String,
    pub parent: Option<u32>,
    pub transform: Transform,
}

/// What a [`Node`] holds, as plain values.
pub struct NodeView {
    pub children: Set<u32>,
    pub mesh: Option<u32>,
    pub name: Seq<char>,
    pub parent: Option<u32>,
    pub transform: Transform,
}

impl NodeView {
    /// A node without relatives, mesh or name, placed at the identity transform.
    pub open spec fn fresh() -> NodeView {
        NodeView {
            children: Set::empty(),
            mesh: None,
            name: Seq::empty(),
            parent: None,
            transform: Transform::identity(),
        }
    }
}

impl View for Node {
    type V = NodeView;

    open spec fn view(&self) -> NodeView {
        NodeView {
            children: self.children@,
            mesh: self.mesh,
            name: self.name@,
            parent: self.parent,
            transform: self.transform,
        }
    }
}

impl Default for Node {
    fn default() -> (n: Node)
        ensures
            n@ == NodeView::fresh(),
    {
        Node {
            children: IdSet::new(),
            mesh: None,
            name: String::new(),
            parent: None,
            transform: Transform::default(),
        }
    }
}

} // verus!
