//! Host runtime for sandboxed scripts that edit a shared scene graph.
//!
//! The crate holds the reference-counted resource table, the scene-graph
//! resources stored in it, the queue of actions that mirrors every committed
//! change, the rules for binding a script's lifecycle interface and the
//! fixed-cadence scheduler that drives each script instance.

pub mod actions;
pub mod binding;
pub mod execution;
pub mod graph;
pub mod handle_laws;
pub mod id_set;
pub mod math;
pub mod options;
pub mod pass_laws;
pub mod refcount;
pub mod resource;
pub mod scene;
pub mod schedule_laws;
pub mod store;
pub mod table;
