use unavi_scripting::binding::{get_script_interface, LifecycleExports, Lookups, ScriptInterface};
use unavi_scripting::execution::{
    init_scripts, update_scripts, CallError, GuestValue, ScriptInstance, ScriptResource,
    ScriptState, UpdateOutcome, UPDATE_DELTA, UPDATE_HZ,
};
use unavi_scripting::resource::{Handle, ResourceData, ResourceKind};
use unavi_scripting::store::StoreState;

type Instance = ScriptInstance<u8, u8, u32>;

const MILLI: u64 = 1_000_000;

fn binding(rep: u32) -> ScriptInterface<u8, u8> {
    ScriptInterface {
        data_type: 0,
        capability_type: 1,
        ecs_world: Handle::new(rep, ResourceKind::Capability),
        init: 2,
        update: 3,
    }
}

fn constructed(data: u32) -> Instance {
    let mut instance = Instance::new(binding(0));
    assert_eq!(instance.init_script(0, Ok(vec![GuestValue::Own(data)])), ScriptState::Initialized);
    instance
}

#[test]
fn the_interval_is_one_sixtieth_of_a_second() {
    assert_eq!(UPDATE_HZ, 60);
    assert_eq!(UPDATE_DELTA, 16_666_667);
    // The least whole number of nanoseconds that is no shorter than 1/60 s.
    assert!(UPDATE_DELTA * UPDATE_HZ >= 1_000_000_000);
    assert!((UPDATE_DELTA - 1) * UPDATE_HZ < 1_000_000_000);
    assert!(((UPDATE_DELTA - 1) as f64) / 1e9 < 1.0 / 60.0);
    assert!((UPDATE_DELTA as f64) / 1e9 >= 1.0 / 60.0);
}

#[test]
fn a_new_instance_waits_for_its_construction() {
    let instance = Instance::new(binding(4));
    assert_eq!(instance.state(), ScriptState::Unbound);
    assert!(instance.data_handle().is_none());
    assert_eq!(instance.last_update_time(), 0);
    assert_eq!(instance.binding().ecs_world.rep(), 4);
    assert_eq!(instance.binding().update, 3);
}

#[test]
fn update_is_not_due_before_construction() {
    let instance = Instance::new(binding(0));
    assert_eq!(instance.due(0), None);
    assert_eq!(instance.due(UPDATE_DELTA), None);
    assert_eq!(instance.due(u64::MAX), None);
    let instances = vec![instance];
    assert!(update_scripts(&instances, 10 * UPDATE_DELTA).is_empty());
    assert_eq!(init_scripts(&instances), vec![0]);
}

#[test]
fn construction_keeps_the_returned_handle() {
    let instance = constructed(42);
    assert_eq!(instance.state(), ScriptState::Initialized);
    assert!(matches!(instance.data_handle(), Some(ScriptResource(42))));
    assert_eq!(instance.last_update_time(), 0);
}

#[test]
fn the_first_interval_starts_at_construction() {
    let mut instance = Instance::new(binding(0));
    let start = 100 * UPDATE_DELTA + 5;
    assert_eq!(
        instance.init_script(start, Ok(vec![GuestValue::Own(1)])),
        ScriptState::Initialized
    );
    assert_eq!(instance.last_update_time(), start);
    assert_eq!(instance.due(start), None);
    assert_eq!(instance.due(start + UPDATE_DELTA - 1), None);
    assert_eq!(instance.due(start + UPDATE_DELTA), Some(UPDATE_DELTA));
}

#[test]
fn a_failed_construction_keeps_the_clock() {
    let mut instance = Instance::new(binding(0));
    assert_eq!(instance.init_script(77, Err(CallError)), ScriptState::FailedToInit);
    assert_eq!(instance.last_update_time(), 0);
}

#[test]
fn a_constructor_trap_fails_the_instance_for_good() {
    let mut instance = Instance::new(binding(0));
    assert_eq!(instance.init_script(0, Err(CallError)), ScriptState::FailedToInit);
    assert_eq!(instance.state(), ScriptState::FailedToInit);
    assert!(instance.data_handle().is_none());

    // It is absent from every later pass.
    let mut instances = vec![instance];
    for pass in 1..5u64 {
        assert!(init_scripts(&instances).is_empty());
        assert!(update_scripts(&instances, pass * UPDATE_DELTA).is_empty());
    }
    // No retry: a later result changes nothing.
    assert_eq!(
        instances[0].init_script(0, Ok(vec![GuestValue::Own(1)])),
        ScriptState::FailedToInit
    );
    assert!(instances[0].data_handle().is_none());
    instances[0].finish_update(UPDATE_DELTA, UpdateOutcome::Updated);
    assert_eq!(instances[0].state(), ScriptState::FailedToInit);
    assert_eq!(instances[0].last_update_time(), 0);
}

#[test]
fn a_wrong_shaped_return_fails_the_instance() {
    let mut none = Instance::new(binding(0));
    assert_eq!(none.init_script(0, Ok(vec![])), ScriptState::FailedToInit);

    let mut other = Instance::new(binding(0));
    assert_eq!(other.init_script(0, Ok(vec![GuestValue::Other])), ScriptState::FailedToInit);

    let mut two = Instance::new(binding(0));
    assert_eq!(
        two.init_script(0, Ok(vec![GuestValue::Own(1), GuestValue::Own(2)])),
        ScriptState::FailedToInit
    );
    assert!(two.data_handle().is_none());
}

#[test]
fn construction_runs_once() {
    let mut instance = constructed(1);
    assert_eq!(instance.init_script(0, Ok(vec![GuestValue::Own(2)])), ScriptState::Initialized);
    assert!(matches!(instance.data_handle(), Some(ScriptResource(1))));
    assert_eq!(instance.init_script(0, Err(CallError)), ScriptState::Initialized);
    assert!(matches!(instance.data_handle(), Some(ScriptResource(1))));
}

#[test]
fn update_is_due_after_one_interval() {
    let instance = constructed(1);
    assert_eq!(instance.due(0), None);
    assert_eq!(instance.due(UPDATE_DELTA - 1), None);
    assert_eq!(instance.due(UPDATE_DELTA), Some(UPDATE_DELTA));
    assert_eq!(instance.due(UPDATE_DELTA + 5), Some(UPDATE_DELTA + 5));
}

#[test]
fn passes_within_the_interval_make_no_update_and_the_next_makes_one() {
    let mut instance = constructed(1);
    instance.finish_update(100 * MILLI, UpdateOutcome::Updated);
    let start = 100 * MILLI;
    let mut updates = 0;
    // Two passes of 8 ms each: 16 ms have passed, less than the interval.
    for now in [start + 8 * MILLI, start + 16 * MILLI] {
        if instance.due(now).is_some() {
            updates += 1;
            instance.finish_update(now, UpdateOutcome::Updated);
        }
    }
    assert_eq!(updates, 0);
    assert_eq!(instance.last_update_time(), start);
    // The third pass brings the time passed to 24 ms.
    let now = start + 24 * MILLI;
    assert_eq!(instance.due(now), Some(24 * MILLI));
    instance.finish_update(now, UpdateOutcome::Updated);
    assert_eq!(instance.last_update_time(), now);
    // The same pass makes no second update.
    assert_eq!(instance.due(now), None);
}

#[test]
fn a_long_pause_makes_one_update_and_the_excess_is_dropped() {
    let mut instance = constructed(1);
    let now = 10 * UPDATE_DELTA + 3;
    assert_eq!(instance.due(now), Some(now));
    instance.finish_update(now, UpdateOutcome::Updated);
    assert_eq!(instance.due(now), None);
    assert_eq!(instance.due(now + UPDATE_DELTA - 1), None);
    assert_eq!(instance.due(now + UPDATE_DELTA), Some(UPDATE_DELTA));
}

#[test]
fn time_that_runs_backwards_makes_no_update() {
    let mut instance = constructed(1);
    instance.finish_update(5 * UPDATE_DELTA, UpdateOutcome::Updated);
    assert_eq!(instance.due(UPDATE_DELTA), None);
    assert_eq!(instance.due(0), None);
}

#[test]
fn an_update_trap_leaves_the_instance_initialized() {
    let mut instance = constructed(9);
    let tick = |n: u64| n * UPDATE_DELTA;
    for n in 1..=2 {
        assert_eq!(instance.due(tick(n)), Some(UPDATE_DELTA));
        instance.finish_update(tick(n), UpdateOutcome::Updated);
    }
    // The update traps on tick 3.
    assert_eq!(instance.due(tick(3)), Some(UPDATE_DELTA));
    instance.finish_update(tick(3), UpdateOutcome::CallFailed);
    assert_eq!(instance.state(), ScriptState::Initialized);
    assert!(matches!(instance.data_handle(), Some(ScriptResource(9))));
    // Tick 4 is attempted, with the data still there to borrow.
    assert!(instance.due(tick(4)).is_some());
    instance.finish_update(tick(4), UpdateOutcome::Updated);
    assert_eq!(instance.last_update_time(), tick(4));
    assert_eq!(instance.state(), ScriptState::Initialized);
}

#[test]
fn a_failed_borrow_is_retried_at_the_next_pass() {
    let mut instance = constructed(9);
    instance.finish_update(UPDATE_DELTA, UpdateOutcome::ResourceNotFound);
    assert_eq!(instance.state(), ScriptState::Initialized);
    assert_eq!(instance.last_update_time(), 0);
    assert_eq!(instance.due(UPDATE_DELTA + 1), Some(UPDATE_DELTA + 1));
}

#[test]
fn init_scripts_lists_the_instances_to_construct() {
    let mut failed = Instance::new(binding(0));
    failed.init_script(0, Err(CallError));
    let instances =
        vec![Instance::new(binding(0)), constructed(1), failed, Instance::new(binding(0))];
    assert_eq!(init_scripts(&instances), vec![0, 3]);
    let none: Vec<Instance> = Vec::new();
    assert!(init_scripts(&none).is_empty());
}

#[test]
fn update_scripts_lists_the_instances_that_are_due() {
    let mut recent = constructed(2);
    recent.finish_update(3 * UPDATE_DELTA, UpdateOutcome::Updated);
    let mut failed = Instance::new(binding(0));
    failed.init_script(0, Err(CallError));
    let instances = vec![constructed(1), Instance::new(binding(0)), recent, failed, constructed(3)];
    let now = 3 * UPDATE_DELTA + 10;
    assert_eq!(update_scripts(&instances, now), vec![(0, now), (4, now)]);
    let later = 4 * UPDATE_DELTA;
    assert_eq!(
        update_scripts(&instances, later),
        vec![(0, later), (2, UPDATE_DELTA), (4, later)]
    );
    assert!(update_scripts(&instances, 5).is_empty());
}

#[test]
fn a_pass_constructs_before_it_updates() {
    let mut instances = vec![Instance::new(binding(0))];
    let now = 2 * UPDATE_DELTA;
    assert!(update_scripts(&instances, now).is_empty());
    for index in init_scripts(&instances) {
        instances[index].init_script(now, Ok(vec![GuestValue::Own(7)]));
    }
    // Constructed in this pass: its first interval has just begun.
    assert!(init_scripts(&instances).is_empty());
    assert!(update_scripts(&instances, now).is_empty());
    assert_eq!(update_scripts(&instances, now + UPDATE_DELTA), vec![(0, UPDATE_DELTA)]);
}

#[test]
fn unload_drops_the_capability_and_returns_the_data() {
    let mut store = StoreState::new();
    let found: Lookups<u8, u8> = Lookups {
        lifecycle: Some(LifecycleExports { data: Some(0), init: Some(1), update: Some(2) }),
        capability_type: Some(3),
    };
    let interface = match get_script_interface(found, &mut store) {
        Ok(interface) => interface,
        Err(error) => panic!("binding failed: {:?}", error),
    };
    let capability = interface.ecs_world;
    let mut instance: Instance = ScriptInstance::new(interface);
    instance.init_script(0, Ok(vec![GuestValue::Own(11)]));
    assert!(matches!(store.get(&capability), Ok(ResourceData::Capability)));

    let data = instance.unload(&mut store);
    assert!(matches!(data, Some(ScriptResource(11))));
    assert!(store.get(&capability).is_err());
    assert!(store.drain_actions().is_empty());
}

#[test]
fn unload_of_an_unconstructed_instance_returns_no_data() {
    let mut store = StoreState::new();
    let instance = Instance::new(binding(3));
    assert!(instance.unload(&mut store).is_none());
}
