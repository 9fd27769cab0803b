//! Binding a script to the host: which of the names that a script must
//! export, or the host must provide, is missing, and the descriptor that a
//! complete set of them yields.

use vstd::prelude::*;

use crate::graph::after_create;
use crate::resource::{DataView, Handle, ResourceError, ResourceKind};
use crate::store::StoreState;

verus! {

/// A name that binding looks up.
#[derive(Clone, Copy, Debug, PartialEq, Eq, Structural)]
pub enum Symbol {
    /// The lifecycle interface that the script exports.
    Lifecycle,
    /// The script's own data type, inside the lifecycle interface.
    Data,
    /// The constructor, inside the lifecycle interface.
    Init,
    /// The update function, inside the lifecycle interface.
    Update,
    /// The capability type that the host registers.
    CapabilityType,
}

impl Symbol {
    /// The name as it is reported.
    pub open spec fn spec_name(self) -> Seq<char> {
        match self {
            Symbol::Lifecycle => "lifecycle"@,
            Symbol::Data => "data"@,
            Symbol::Init => "init"@,
            Symbol::Update => "update"@,
            Symbol::CapabilityType => "capability type"@,
        }
    }

    /// The name as it is reported.
    pub fn name(&self) -> (name: &'static str)
        ensures
            name@ == self.spec_name(),
    {
        match self {
            Symbol::Lifecycle => "lifecycle",
            Symbol::Data => "data",
            Symbol::Init => "init",
            Symbol::Update => "update",
            Symbol::CapabilityType => "capability type",
        }
    }
}

/// Why a script could not be bound.
#[derive(Clone, Copy, Debug, PartialEq, Eq)]
pub enum BindingError {
    /// A required name was not found.
    Missing(Symbol),
    /// The capability could not be allocated.
    Allocation(ResourceError),
}

/// What was found inside the lifecycle interface of a script.
pub struct LifecycleExports<F, T> {
    pub data: Option<T>,
    pub init: Option<F>,
    pub update: Option<F>,
}

/// What the lookups of one binding found: `F` is a callable, `T` a type tag.
pub struct Lookups<F, T> {
    /// The lifecycle interface, if the script exports it.
    pub lifecycle: Option<LifecycleExports<F, T>>,
    /// The capability type, if the host registered it.
    pub capability_type: Option<T>,
}

/// The first name, in the order in which binding looks them up, that was not
/// found.
pub open spec fn first_missing<F, T>(found: Lookups<F, T>) -> Option<Symbol> {
    if found.lifecycle is None {
        Some(Symbol::Lifecycle)
    } else if found.lifecycle->0.data is None {
        Some(Symbol::Data)
    } else if found.lifecycle->0.init is None {
        Some(Symbol::Init)
    } else if found.lifecycle->0.update is None {
        Some(Symbol::Update)
    } else if found.capability_type is None {
        Some(Symbol::CapabilityType)
    } else {
        None
    }
}

/// Everything that later calls into a script need. It is made once, when the
/// script is bound, and does not change.
pub struct ScriptInterface<F, T> {
    pub data_type: T,
    pub capability_type: T,
    /// The capability that this script presents to reach the scene graph.
    pub ecs_world: Handle,
    pub init: F,
    pub update: F,
}

/// Binds a script from what the lookups found. Where a name is missing, the
/// first missing one is reported and nothing is allocated. Otherwise one
/// fresh capability is allocated, held by the table and by the handle in the
/// descriptor; the allocation succeeds as long as the table's number of
/// slots fits an id.
pub fn get_script_interface<F, T>(found: Lookups<F, T>, store: &mut StoreState) -> (r: Result<
    ScriptInterface<F, T>,
    BindingError,
>)
    requires
        old(store).wf(),
    ensures
        final(store).wf(),
        final(store).pending() == old(store).pending(),
        first_missing(found) is None && old(store).slots() <= u32::MAX ==> r is Ok,
        old(store).slots() <= final(store).slots() <= old(store).slots() + 1,
        match r {
            Ok(interface) => {
                &&& first_missing(found) is None
                &&& interface.data_type == found.lifecycle->0.data->0
                &&& interface.init == found.lifecycle->0.init->0
                &&& interface.update == found.lifecycle->0.update->0
                &&& interface.capability_type == found.capability_type->0
                &&& interface.ecs_world.kind == ResourceKind::Capability
                &&& !old(store).entries().dom().contains(interface.ecs_world.rep)
                &&& final(store).entries() == after_create(
                    old(store).entries(),
                    interface.ecs_world.rep,
                    DataView::Capability,
                )
            },
            Err(error) => {
                &&& final(store).entries() == old(store).entries()
                &&& error == match first_missing(found) {
                    Some(symbol) => BindingError::Missing(symbol),
                    None => BindingError::Allocation(ResourceError::TableFull),
                }
            },
        },
        first_missing(found) is Some ==> r is Err,
{
    let exports = match found.lifecycle {
        Some(exports) => exports,
        None => {
            return Err(BindingError::Missing(Symbol::Lifecycle));
        },
    };
    let data_type = match exports.data {
        Some(data_type) => data_type,
        None => {
            return Err(BindingError::Missing(Symbol::Data));
        },
    };
    let init = match exports.init {
        Some(init) => init,
        None => {
            return Err(BindingError::Missing(Symbol::Init));
        },
    };
    let update = match exports.update {
        Some(update) => update,
        None => {
            return Err(BindingError::Missing(Symbol::Update));
        },
    };
    let capability_type = match found.capability_type {
        Some(capability_type) => capability_type,
        None => {
            return Err(BindingError::Missing(Symbol::CapabilityType));
        },
    };
    match store.create_capability() {
        Ok(ecs_world) => {
            Ok(ScriptInterface { data_type, capability_type, ecs_world, init, update })
        },
        Err(error) => Err(BindingError::Allocation(error)),
    }
}

} // verus!
