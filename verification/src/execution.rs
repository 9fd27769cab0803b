//! The scheduler of script instances: one construction per instance, then
//! updates at a fixed cadence.
//!
//! Time is counted in nanoseconds since the world started.

use vstd::prelude::*;

use crate::binding::ScriptInterface;
use crate::graph::{after_remove, grants_access};
use crate::store::StoreState;

verus! {

/// Updates per second.
pub const UPDATE_HZ: u64 = 60;

/// The fixed interval between two updates of an instance, in nanoseconds:
/// the least whole number of nanoseconds that is no shorter than one
/// sixtieth of a second.
pub const UPDATE_DELTA: u64 = 16_666_667;

/// Where an instance stands in its lifecycle.
#[derive(Clone, Copy, Debug, PartialEq, Eq, Structural)]
pub enum ScriptState {
    /// Bound, not constructed yet.
    Unbound,
    /// Constructed: updates are scheduled.
    Initialized,
    /// Construction failed. There is no way out of this state.
    FailedToInit,
}

/// The data of a constructed script: the handle that its constructor
/// returned and that the host owns.
#[derive(Debug)]
pub struct ScriptResource<D>(pub D);

/// A value that a call into a script returned.
#[derive(Debug)]
pub enum GuestValue<D> {
    /// An owned handle to a resource of the script.
    Own(D),
    /// Anything else.
    Other,
}

/// A call into a script trapped or did not complete.
#[derive(Clone, Copy, Debug, PartialEq, Eq, Structural)]
pub struct CallError;

/// How the update of one instance went.
#[derive(Clone, Copy, Debug, PartialEq, Eq, Structural)]
pub enum UpdateOutcome {
    /// The script's update function ran and returned.
    Updated,
    /// The script's data could not be borrowed: it was deleted.
    ResourceNotFound,
    /// The script's update function trapped.
    CallFailed,
}

/// What scheduling reads of an instance.
pub struct Lifecycle {
    pub state: ScriptState,
    /// When the last update of the instance returned successfully; before
    /// its first update, when the instance was constructed.
    pub last_update_time: u64,
}

impl Lifecycle {
    /// A bound instance before its construction.
    pub open spec fn fresh() -> Lifecycle {
        Lifecycle { state: ScriptState::Unbound, last_update_time: 0 }
    }

    /// Whether the instance waits for its construction.
    pub open spec fn needs_init(self) -> bool {
        self.state == ScriptState::Unbound
    }

    /// The instance after its constructor was called at `now`: initialized
    /// if the call returned the script's data, failed for good if it did not.
    /// The first interval of an initialized instance starts at `now`. An
    /// instance that was constructed before, or failed before, stays as it
    /// is.
    pub open spec fn after_construct(self, now: u64, constructed: bool) -> Lifecycle {
        if self.state != ScriptState::Unbound {
            self
        } else if constructed {
            Lifecycle { state: ScriptState::Initialized, last_update_time: now }
        } else {
            Lifecycle { state: ScriptState::FailedToInit, ..self }
        }
    }

    /// The time that an update at `now` would be told has passed, if an
    /// update is due then: the instance is initialized and at least one
    /// interval has passed since its last successful update.
    pub open spec fn due(self, now: u64) -> Option<u64> {
        if self.state == ScriptState::Initialized && now - self.last_update_time >= UPDATE_DELTA {
            Some((now - self.last_update_time) as u64)
        } else {
            None
        }
    }

    /// The instance after an update at `now` went as `outcome` says. A
    /// successful update restarts the interval at `now`, whatever time had
    /// passed; a failed one leaves the instance as it is, so that the next
    /// pass tries again.
    pub open spec fn after_update(self, now: u64, outcome: UpdateOutcome) -> Lifecycle {
        if self.state == ScriptState::Initialized && outcome == UpdateOutcome::Updated {
            Lifecycle { last_update_time: now, ..self }
        } else {
            self
        }
    }
}

/// Whether a constructor's outcome is the script's data: the call returned
/// exactly one value, an owned handle.
pub open spec fn is_constructed<D>(outcome: Result<Vec<GuestValue<D>>, CallError>) -> bool {
    outcome is Ok && outcome->Ok_0@.len() == 1 && outcome->Ok_0@[0] is Own
}

/// One script instance: `F` is a callable and `T` a type tag of the script
/// runtime, `D` the handle to the script's data.
pub struct ScriptInstance<F, T, D> {
    binding: ScriptInterface<F, T>,
    state: ScriptState,
    data_handle: Option<ScriptResource<D>>,
    last_update_time: u64,
}

impl<F, T, D> View for ScriptInstance<F, T, D> {
    type V = Lifecycle;

    closed spec fn view(&self) -> Lifecycle {
        Lifecycle { state: self.state, last_update_time: self.last_update_time }
    }
}

impl<F, T, D> ScriptInstance<F, T, D> {
    /// The descriptor that the instance was bound with.
    pub closed spec fn spec_binding(&self) -> ScriptInterface<F, T> {
        self.binding
    }

    /// The data of the script, once it is constructed.
    pub closed spec fn spec_data_handle(&self) -> Option<ScriptResource<D>> {
        self.data_handle
    }

    /// An instance holds its script's data exactly while it is initialized.
    pub closed spec fn wf(&self) -> bool {
        self.state == ScriptState::Initialized <==> self.data_handle is Some
    }

    /// What `wf` says: an instance holds its script's data exactly while it
    /// is initialized.
    pub proof fn lemma_wf_data(&self)
        requires
            self.wf(),
        ensures
            self@.state == ScriptState::Initialized <==> self.spec_data_handle() is Some,
    {
    }

    /// A new instance of the script that `binding` describes.
    pub fn new(binding: ScriptInterface<F, T>) -> (instance: ScriptInstance<F, T, D>)
        ensures
            instance.wf(),
            instance@ == Lifecycle::fresh(),
            instance.spec_binding() == binding,
            instance.spec_data_handle() is None,
    {
        ScriptInstance {
            binding,
            state: ScriptState::Unbound,
            data_handle: None,
            last_update_time: 0,
        }
    }

    /// The descriptor that the instance was bound with.
    pub fn binding(&self) -> (binding: &ScriptInterface<F, T>)
        ensures
            *binding == self.spec_binding(),
    {
        &self.binding
    }

    /// Where the instance stands in its lifecycle.
    pub fn state(&self) -> (state: ScriptState)
        ensures
            state == self@.state,
    {
        self.state
    }

    /// The data of the script, once it is constructed.
    pub fn data_handle(&self) -> (data: &Option<ScriptResource<D>>)
        ensures
            *data == self.spec_data_handle(),
    {
        &self.data_handle
    }

    /// When the last update of the instance returned successfully; before
    /// its first update, when the instance was constructed.
    pub fn last_update_time(&self) -> (time: u64)
        ensures
            time == self@.last_update_time,
    {
        self.last_update_time
    }

    /// Records how the call of the constructor at `now` went. The instance
    /// is initialized if the call returned exactly one value, an owned
    /// handle, which the instance then holds; any other outcome fails the
    /// instance for good. Returns the state that the instance is in
    /// afterwards.
    pub fn init_script(
        &mut self,
        now: u64,
        outcome: Result<Vec<GuestValue<D>>, CallError>,
    ) -> (state: ScriptState)
        requires
            old(self).wf(),
        ensures
            final(self).wf(),
            final(self)@ == old(self)@.after_construct(now, is_constructed(outcome)),
            state == final(self)@.state,
            final(self).spec_binding() == old(self).spec_binding(),
            old(self)@.needs_init() && is_constructed(outcome) ==> final(self).spec_data_handle()
                == Some(ScriptResource(outcome->Ok_0@[0]->Own_0)),
            !(old(self)@.needs_init() && is_constructed(outcome)) ==> final(
                self).spec_data_handle() == old(self).spec_data_handle(),
    {
        if self.state != ScriptState::Unbound {
            return self.state;
        }
        let returned = match outcome {
            Ok(mut results) => {
                if results.len() == 1 {
                    results.pop()
                } else {
                    None
                }
            },
            Err(_) => None,
        };
        match returned {
            Some(GuestValue::Own(data)) => {
                self.data_handle = Some(ScriptResource(data));
                self.state = ScriptState::Initialized;
                self.last_update_time = now;
            },
            _ => {
                self.state = ScriptState::FailedToInit;
            },
        }
        self.state
    }

    /// Whether an update is due at `now`, and if so, how much time it is
    /// told has passed.
    pub fn due(&self, now: u64) -> (delta: Option<u64>)
        ensures
            delta == self@.due(now),
    {
        if self.state == ScriptState::Initialized && now >= self.last_update_time && now
            - self.last_update_time >= UPDATE_DELTA {
            Some(now - self.last_update_time)
        } else {
            None
        }
    }

    /// Records how the update at `now` went.
    pub fn finish_update(&mut self, now: u64, outcome: UpdateOutcome)
        requires
            old(self).wf(),
        ensures
            final(self).wf(),
            final(self)@ == old(self)@.after_update(now, outcome),
            final(self).spec_binding() == old(self).spec_binding(),
            final(self).spec_data_handle() == old(self).spec_data_handle(),
    {
        if self.state == ScriptState::Initialized && outcome == UpdateOutcome::Updated {
            self.last_update_time = now;
        }
    }
}

impl<F, T, D> ScriptInstance<F, T, D> {
    /// Unloads the script: the instance's capability handle is dropped
    /// through the table, which deletes the capability if that was its last
    /// holder, and the script's data is handed back for its owner to drop.
    pub fn unload(self, store: &mut StoreState) -> (data: Option<ScriptResource<D>>)
        requires
            old(store).wf(),
        ensures
            final(store).wf(),
            final(store).slots() == old(store).slots(),
            data == self.spec_data_handle(),
            final(store).pending() == old(store).pending(),
            grants_access(old(store).entries(), self.spec_binding().ecs_world) ==> final(
                store).entries() == after_remove(
                old(store).entries(),
                self.spec_binding().ecs_world,
            ),
            !grants_access(old(store).entries(), self.spec_binding().ecs_world) ==> final(
                store).entries() == old(store).entries(),
    {
        let _ = store.remove_capability(self.binding.ecs_world);
        self.data_handle
    }
}

/// The instances that a pass constructs: those that wait for their
/// construction, by index and in order.
pub fn init_scripts<F, T, D>(instances: &Vec<ScriptInstance<F, T, D>>) -> (pending: Vec<usize>)
    ensures
        forall|k: int| 0 <= k < pending@.len() ==> pending@[k] < instances@.len(),
        forall|j: int, k: int| 0 <= j < k < pending@.len() ==> pending@[j] < pending@[k],
        forall|i: int|
            0 <= i < instances@.len() ==> (instances@[i]@.needs_init() <==> exists|k: int|
                0 <= k < pending@.len() && #[trigger] pending@[k] == i),
{
    let mut pending: Vec<usize> = Vec::new();
    let mut i: usize = 0;
    while i < instances.len()
        invariant
            i <= instances@.len(),
            forall|k: int| 0 <= k < pending@.len() ==> pending@[k] < i,
            forall|j: int, k: int| 0 <= j < k < pending@.len() ==> pending@[j] < pending@[k],
            forall|n: int|
                0 <= n < i ==> (instances@[n]@.needs_init() <==> exists|k: int|
                    0 <= k < pending@.len() && #[trigger] pending@[k] == n),
        decreases instances@.len() - i,
    {
        let ghost before = pending@;
        if instances[i].state == ScriptState::Unbound {
            pending.push(i);
            proof {
                assert(pending@[before.len() as int] == i);
                assert forall|n: int| 0 <= n < i + 1 implies (instances@[n]@.needs_init()
                    <==> exists|k: int| 0 <= k < pending@.len() && #[trigger] pending@[k] == n) by {
                    if n < i && instances@[n]@.needs_init() {
                        let k = choose|k: int| 0 <= k < before.len() && #[trigger] before[k] == n;
                        assert(pending@[k] == n);
                    }
                }
            }
        }
        i = i + 1;
    }
    pending
}

/// The updates that a pass at `now` makes: for each instance that is due, its
/// index and the time that its update is told has passed, in order. No
/// instance is listed twice.
pub fn update_scripts<F, T, D>(instances: &Vec<ScriptInstance<F, T, D>>, now: u64) -> (due: Vec<
    (usize, u64),
>)
    ensures
        forall|k: int|
            0 <= k < due@.len() ==> due@[k].0 < instances@.len()
                && instances@[due@[k].0 as int]@.due(now) == Some(due@[k].1),
        forall|j: int, k: int| 0 <= j < k < due@.len() ==> due@[j].0 < due@[k].0,
        forall|i: int|
            0 <= i < instances@.len() ==> (instances@[i]@.due(now) is Some <==> exists|k: int|
                0 <= k < due@.len() && #[trigger] due@[k].0 == i),
{
    let mut due: Vec<(usize, u64)> = Vec::new();
    let mut i: usize = 0;
    while i < instances.len()
        invariant
            i <= instances@.len(),
            forall|k: int|
                0 <= k < due@.len() ==> due@[k].0 < i && instances@[due@[k].0 as int]@.due(now)
                    == Some(due@[k].1),
            forall|j: int, k: int| 0 <= j < k < due@.len() ==> due@[j].0 < due@[k].0,
            forall|n: int|
                0 <= n < i ==> (instances@[n]@.due(now) is Some <==> exists|k: int|
                    0 <= k < due@.len() && #[trigger] due@[k].0 == n),
        decreases instances@.len() - i,
    {
        let ghost before = due@;
        match instances[i].due(now) {
            Some(delta) => {
                due.push((i, delta));
                proof {
                    assert(due@[before.len() as int].0 == i);
                    assert forall|n: int| 0 <= n < i + 1 implies (instances@[n]@.due(now) is Some
                        <==> exists|k: int| 0 <= k < due@.len() && #[trigger] due@[k].0 == n) by {
                        if n < i && instances@[n]@.due(now) is Some {
                            let k = choose|k: int|
                                0 <= k < before.len() && #[trigger] before[k].0 == n;
                            assert(due@[k].0 == n);
                        }
                    }
                }
            },
            None => {},
        }
        i = i + 1;
    }
    due
}

} // verus!
