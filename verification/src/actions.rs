//! The queue of actions that carries every committed change of the scene
//! graph to the world that mirrors it.

use vstd::prelude::*;

use crate::math::{Color, Transform};
use crate::resource::ResourceKind;

verus! {

/// What an action reports.
#[derive(Clone, Copy, Debug, PartialEq, Eq, Structural)]
pub enum ActionKind {
    Create,
    Remove,
    Mutate,
}

/// What a mutation changed, with the new value.
#[derive(Clone, Debug, PartialEq, Eq)]
pub enum Payload {
    /// Nothing beyond the action itself.
    Nothing,
    /// The name of a node, a mesh or a material.
    Name(String),
    /// The mesh that a node shows.
    Mesh(Option<u32>),
    /// The material that a primitive uses.
    Material(Option<u32>),
    /// The parent of a node.
    Parent(Option<u32>),
    /// A primitive that joined a mesh.
    PrimitiveAdded(u32),
    /// A primitive that left a mesh.
    PrimitiveRemoved(u32),
    /// The transform of a node.
    Transform(Transform),
    /// The colour of a material.
    Color(Color),
}

/// The record of one committed change.
#[derive(Clone, Debug, PartialEq, Eq)]
pub struct Action {
    pub kind: ActionKind,
    pub resource_kind: ResourceKind,
    pub id: u32,
    pub payload: Payload,
}

impl Action {
    /// The action that reports the creation of the resource `id`.
    pub open spec fn created(resource_kind: ResourceKind, id: u32) -> Action {
        Action { kind: ActionKind::Create, resource_kind, id, payload: Payload::Nothing }
    }

    /// The action that reports the removal of the resource `id`.
    pub open spec fn removed(resource_kind: ResourceKind, id: u32) -> Action {
        Action { kind: ActionKind::Remove, resource_kind, id, payload: Payload::Nothing }
    }

    /// The action that reports a change of the resource `id`.
    pub open spec fn mutated(resource_kind: ResourceKind, id: u32, payload: Payload) -> Action {
        Action { kind: ActionKind::Mutate, resource_kind, id, payload }
    }

    /// Builds the action that reports the creation of the resource `id`.
    pub fn create(resource_kind: ResourceKind, id: u32) -> (action: Action)
        ensures
            action == Action::created(resource_kind, id),
    {
        Action { kind: ActionKind::Create, resource_kind, id, payload: Payload::Nothing }
    }

    /// Builds the action that reports the removal of the resource `id`.
    pub fn remove(resource_kind: ResourceKind, id: u32) -> (action: Action)
        ensures
            action == Action::removed(resource_kind, id),
    {
        Action { kind: ActionKind::Remove, resource_kind, id, payload: Payload::Nothing }
    }

    /// Builds the action that reports a change of the resource `id`.
    pub fn mutate(resource_kind: ResourceKind, id: u32, payload: Payload) -> (action: Action)
        ensures
            action == Action::mutated(resource_kind, id, payload),
    {
        Action { kind: ActionKind::Mutate, resource_kind, id, payload }
    }
}

/// An unbounded first-in, first-out queue of actions.
pub struct ActionQueue {
    items: Vec<Action>,
}

impl View for ActionQueue {
    type V = Seq<Action>;

    closed spec fn view(&self) -> Seq<Action> {
        self.items@
    }
}

impl ActionQueue {
    /// An empty queue.
    pub fn new() -> (queue: ActionQueue)
        ensures
            queue@ == Seq::<Action>::empty(),
    {
        ActionQueue { items: Vec::new() }
    }

    /// Appends `action` behind everything that is queued.
    pub fn send(&mut self, action: Action)
        ensures
            final(self)@ == old(self)@.push(action),
    {
        self.items.push(action);
    }

    /// Takes everything out of the queue, oldest first.
    pub fn drain(&mut self) -> (drained: Vec<Action>)
        ensures
            drained@ == old(self)@,
            final(self)@ == Seq::<Action>::empty(),
    {
        let mut drained: Vec<Action> = Vec::new();
        core::mem::swap(&mut drained, &mut self.items);
        drained
    }

    /// The number of queued actions.
    pub fn len(&self) -> (len: usize)
        ensures
            len == self@.len(),
    {
        self.items.len()
    }
}

/// The queue `queued` after each action of `sent` was appended in turn.
pub open spec fn send_all(queued: Seq<Action>, sent: Seq<Action>) -> Seq<Action>
    decreases sent.len(),
{
    if sent.len() == 0 {
        queued
    } else {
        send_all(queued, sent.drop_last()).push(sent.last())
    }
}

/// Actions leave the queue in the order in which they were sent: what is
/// drained after the sends is what was queued before, followed by what was
/// sent, each action once and in its place.
pub proof fn lemma_drain_keeps_send_order(queued: Seq<Action>, sent: Seq<Action>)
    ensures
        send_all(queued, sent) == queued + sent,
        send_all(queued, sent).len() == queued.len() + sent.len(),
        forall|i: int|
            0 <= i < sent.len() ==> send_all(queued, sent)[queued.len() + i] == #[trigger] sent[i],
    decreases sent.len(),
{
    if sent.len() > 0 {
        lemma_drain_keeps_send_order(queued, sent.drop_last());
    }
}

/// What one call queued stands, when the queue is drained, before what a
/// later call queued.
pub proof fn lemma_calls_drain_in_order(
    queued: Seq<Action>,
    first: Seq<Action>,
    second: Seq<Action>,
)
    ensures
        forall|i: int, j: int|
            0 <= i < first.len() && 0 <= j < second.len() ==> (queued + first + second)[queued.len()
                + i] == #[trigger] first[i] && (queued + first + second)[queued.len() + first.len()
                + j] == #[trigger] second[j] && queued.len() + i < queued.len() + first.len() + j,
{
}

} // verus!
