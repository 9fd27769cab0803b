//! What holds of every run of the scheduler on one instance.

use vstd::prelude::*;

use crate::execution::{Lifecycle, ScriptState, UpdateOutcome, UPDATE_DELTA};

verus! {

/// One thing that is recorded on an instance.
pub enum Step {
    /// The constructor was called at the given time; `true` if it returned
    /// the script's data.
    Construct(u64, bool),
    /// An update was made at the given time and went as the outcome says.
    Update(u64, UpdateOutcome),
}

/// The instance after `step` was recorded.
pub open spec fn after_step(lifecycle: Lifecycle, step: Step) -> Lifecycle {
    match step {
        Step::Construct(now, constructed) => lifecycle.after_construct(now, constructed),
        Step::Update(now, outcome) => lifecycle.after_update(now, outcome),
    }
}

/// The instance after `steps` were recorded in order.
pub open spec fn after_steps(lifecycle: Lifecycle, steps: Seq<Step>) -> Lifecycle
    decreases steps.len(),
{
    if steps.len() == 0 {
        lifecycle
    } else {
        after_step(after_steps(lifecycle, steps.drop_last()), steps.last())
    }
}

/// The number of updates that are made when passes run at `times`, one after
/// the other, and every update succeeds.
pub open spec fn updates_in(lifecycle: Lifecycle, times: Seq<u64>) -> nat
    decreases times.len(),
{
    if times.len() == 0 {
        0
    } else if lifecycle.due(times[0]) is Some {
        1 + updates_in(
            lifecycle.after_update(times[0], UpdateOutcome::Updated),
            times.drop_first(),
        )
    } else {
        updates_in(lifecycle, times.drop_first())
    }
}

/// No update is ever due for an instance, whatever was recorded on it since
/// it was bound, unless one of its constructions returned the script's data.
pub proof fn lemma_update_only_after_construct(steps: Seq<Step>, now: u64)
    requires
        after_steps(Lifecycle::fresh(), steps).due(now) is Some,
    ensures
        exists|i: int|
            0 <= i < steps.len() && (#[trigger] steps[i] matches Step::Construct(_, true)),
{
    lemma_initialized_was_constructed(steps);
}

/// An instance is initialized only if one of the steps recorded on it is a
/// construction that returned the script's data.
pub proof fn lemma_initialized_was_constructed(steps: Seq<Step>)
    requires
        after_steps(Lifecycle::fresh(), steps).state == ScriptState::Initialized,
    ensures
        exists|i: int|
            0 <= i < steps.len() && (#[trigger] steps[i] matches Step::Construct(_, true)),
    decreases steps.len(),
{
    if steps.len() > 0 {
        let init = steps.drop_last();
        if after_steps(Lifecycle::fresh(), init).state == ScriptState::Initialized {
            lemma_initialized_was_constructed(init);
            let i = choose|i: int|
                0 <= i < init.len() && (#[trigger] init[i] matches Step::Construct(_, true));
            assert(steps[i] == init[i]);
        } else {
            // The last step is the one that initialized the instance.
            assert(steps[steps.len() - 1] matches Step::Construct(_, true));
        }
    }
}

/// An instance whose construction failed stays failed, whatever is recorded
/// on it afterwards, and no update is ever due for it.
pub proof fn lemma_failed_for_good(lifecycle: Lifecycle, steps: Seq<Step>, now: u64)
    requires
        lifecycle.state == ScriptState::FailedToInit,
    ensures
        after_steps(lifecycle, steps) == lifecycle,
        after_steps(lifecycle, steps).due(now) is None,
        !after_steps(lifecycle, steps).needs_init(),
    decreases steps.len(),
{
    if steps.len() > 0 {
        lemma_failed_for_good(lifecycle, steps.drop_last(), now);
    }
}

/// An update that fails leaves an initialized instance initialized, and an
/// update is due at the next pass as it was at this one.
pub proof fn lemma_failed_update_is_retried(lifecycle: Lifecycle, now: u64, later: u64)
    requires
        lifecycle.state == ScriptState::Initialized,
        lifecycle.due(now) is Some,
        now <= later,
    ensures
        lifecycle.after_update(now, UpdateOutcome::CallFailed) == lifecycle,
        lifecycle.after_update(now, UpdateOutcome::ResourceNotFound) == lifecycle,
        lifecycle.after_update(now, UpdateOutcome::CallFailed).due(later) is Some,
{
}

/// Passes that all run before one interval has passed since the last update
/// make no update.
pub proof fn lemma_no_update_within_interval(lifecycle: Lifecycle, times: Seq<u64>)
    requires
        forall|i: int|
            0 <= i < times.len() ==> #[trigger] times[i] - lifecycle.last_update_time
                < UPDATE_DELTA,
    ensures
        updates_in(lifecycle, times) == 0,
    decreases times.len(),
{
    if times.len() > 0 {
        let rest = times.drop_first();
        assert forall|i: int| 0 <= i < rest.len() implies #[trigger] rest[i]
            - lifecycle.last_update_time < UPDATE_DELTA by {
            assert(rest[i] == times[i + 1]);
        }
        lemma_no_update_within_interval(lifecycle, rest);
    }
}

/// Passes that run before one interval has passed make no update; the first
/// pass at which the time passed reaches the interval makes exactly one,
/// however far beyond the interval it runs, and is told all the time that
/// has passed.
pub proof fn lemma_one_update_past_interval(lifecycle: Lifecycle, early: Seq<u64>, now: u64)
    requires
        lifecycle.state == ScriptState::Initialized,
        forall|i: int|
            0 <= i < early.len() ==> #[trigger] early[i] - lifecycle.last_update_time
                < UPDATE_DELTA,
        now - lifecycle.last_update_time >= UPDATE_DELTA,
    ensures
        updates_in(lifecycle, early) == 0,
        updates_in(lifecycle, early.push(now)) == 1,
        lifecycle.due(now) == Some((now - lifecycle.last_update_time) as u64),
        lifecycle.after_update(now, UpdateOutcome::Updated).due(now) is None,
    decreases early.len(),
{
    lemma_no_update_within_interval(lifecycle, early);
    let all = early.push(now);
    if early.len() == 0 {
        // The only pass is the one at `now`, and nothing follows it.
        assert(all.drop_first() =~= Seq::<u64>::empty());
        assert(updates_in(lifecycle.after_update(now, UpdateOutcome::Updated), all.drop_first())
            == 0);
    } else {
        // The first pass comes too early; the rest is a shorter run.
        let rest = early.drop_first();
        assert(all.drop_first() =~= rest.push(now));
        assert forall|i: int| 0 <= i < rest.len() implies #[trigger] rest[i]
            - lifecycle.last_update_time < UPDATE_DELTA by {
            assert(rest[i] == early[i + 1]);
        }
        lemma_one_update_past_interval(lifecycle, rest, now);
    }
}

} // verus!
