//! Whole runs: what holds of every sequence of steps, whatever the driver
//! reports.

use crate::artifact::{spec_artifact_path, spec_artifact_url};
use crate::plan::{spec_plan, Plan, PlanView};
use crate::request::RequestView;
use crate::workflow::{
    lemma_step_shape, spec_asks, spec_failure, spec_leads_to, spec_step, step, Action, ActionView,
    Event, EventView, FailureView, Stage,
};
use std::path::PathBuf;
use vstd::prelude::*;

verus! {

/// The steps of the run of `plan` that stands in `stage` and is told `events`
/// one after the other: for each event the stage entered and the action asked
/// for. The run stops at the first event that its stage does not wait for, so
/// step `i` is the answer to `events[i]`, and `events[i + 1]` reports on the
/// action of step `i`.
pub open spec fn spec_run(plan: PlanView, stage: Stage, events: Seq<EventView>) -> Seq<
    (Stage, ActionView),
>
    decreases events.len(),
{
    if events.len() == 0 {
        Seq::empty()
    } else {
        match spec_step(plan, stage, events[0]) {
            Some(first) => seq![first] + spec_run(plan, first.0, events.drop_first()),
            None => Seq::empty(),
        }
    }
}

/// The stage in which step `i` of `run` was taken, for a run that began in
/// `start`.
pub open spec fn spec_stage_before(run: Seq<(Stage, ActionView)>, start: Stage, i: int) -> Stage {
    if i == 0 {
        start
    } else {
        run[i - 1].0
    }
}

/// The place of a stage in the order of a run.
pub open spec fn spec_rank(stage: Stage) -> nat {
    match stage {
        Stage::Start => 0,
        Stage::CacheCheck => 1,
        Stage::CacheDirCheck => 2,
        Stage::CacheDirCreate => 3,
        Stage::Download => 4,
        Stage::OutputCheck => 5,
        Stage::OutputClear => 6,
        Stage::Invoke => 7,
        Stage::Succeeded => 8,
        Stage::Failed => 8,
    }
}

/// Every step of a run is the transition of the stage before it on its
/// event, and a run that stops early stops at an event that its stage does
/// not wait for.
pub proof fn lemma_run_follows_steps(plan: PlanView, stage: Stage, events: Seq<EventView>)
    ensures
        spec_run(plan, stage, events).len() <= events.len(),
        forall|i: int|
            0 <= i < spec_run(plan, stage, events).len() ==> spec_step(
                plan,
                spec_stage_before(spec_run(plan, stage, events), stage, i),
                events[i],
            ) == Some(#[trigger] spec_run(plan, stage, events)[i]),
        spec_run(plan, stage, events).len() < events.len() ==> spec_step(
            plan,
            spec_stage_before(
                spec_run(plan, stage, events),
                stage,
                spec_run(plan, stage, events).len() as int,
            ),
            events[spec_run(plan, stage, events).len() as int],
        ) is None,
    decreases events.len(),
{
    let run = spec_run(plan, stage, events);
    if events.len() > 0 {
        match spec_step(plan, stage, events[0]) {
            Some(first) => {
                let rest = events.drop_first();
                let tail = spec_run(plan, first.0, rest);
                lemma_run_follows_steps(plan, first.0, rest);
                assert(run == seq![first] + tail);
                assert forall|i: int| 0 <= i < run.len() implies spec_step(
                    plan,
                    spec_stage_before(run, stage, i),
                    events[i],
                ) == Some(#[trigger] run[i]) by {
                    if i > 0 {
                        assert(run[i] == tail[i - 1]);
                        assert(events[i] == rest[i - 1]);
                        assert(spec_stage_before(run, stage, i) == spec_stage_before(
                            tail,
                            first.0,
                            i - 1,
                        ));
                    }
                }
                if run.len() < events.len() {
                    let n = run.len() as int;
                    assert(events[n] == rest[n - 1]);
                    assert(spec_stage_before(run, stage, n) == spec_stage_before(
                        tail,
                        first.0,
                        n - 1,
                    ));
                }
            },
            None => {},
        }
    }
}

/// A transition always leads to a later stage: a run never goes back and
/// never stays where it is.
pub proof fn lemma_step_advances(plan: PlanView, stage: Stage, event: EventView)
    ensures
        spec_step(plan, stage, event) matches Some(next) ==> spec_rank(stage) < spec_rank(next.0),
{
}

/// The stages of a run come in strictly rising order, so no stage is entered
/// twice and a run has at most eight steps.
pub proof fn lemma_run_advances(plan: PlanView, stage: Stage, events: Seq<EventView>)
    ensures
        forall|i: int|
            0 <= i < spec_run(plan, stage, events).len() ==> spec_rank(stage) + i < spec_rank(
                (#[trigger] spec_run(plan, stage, events)[i]).0,
            ),
        forall|i: int, j: int|
            0 <= i < j < spec_run(plan, stage, events).len() ==> spec_rank(
                (#[trigger] spec_run(plan, stage, events)[i]).0,
            ) < spec_rank((#[trigger] spec_run(plan, stage, events)[j]).0),
        spec_run(plan, stage, events).len() <= 8,
    decreases events.len(),
{
    let run = spec_run(plan, stage, events);
    if events.len() > 0 {
        match spec_step(plan, stage, events[0]) {
            Some(first) => {
                let rest = events.drop_first();
                let tail = spec_run(plan, first.0, rest);
                lemma_run_advances(plan, first.0, rest);
                lemma_step_advances(plan, stage, events[0]);
                assert(run == seq![first] + tail);
                assert forall|i: int| 0 <= i < run.len() implies spec_rank(stage) + i < spec_rank(
                    (#[trigger] run[i]).0,
                ) by {
                    if i > 0 {
                        assert(run[i] == tail[i - 1]);
                    }
                }
                assert forall|i: int, j: int| 0 <= i < j < run.len() implies spec_rank(
                    (#[trigger] run[i]).0,
                ) < spec_rank((#[trigger] run[j]).0) by {
                    assert(run[j] == tail[j - 1]);
                    if i > 0 {
                        assert(run[i] == tail[i - 1]);
                    }
                }
                if run.len() > 8 {
                    assert(spec_rank(stage) + 8 < spec_rank(run[8].0));
                }
            },
            None => {},
        }
    }
}

/// The mathematical content of a list of events.
pub open spec fn spec_events_view(events: Seq<Event>) -> Seq<EventView> {
    Seq::new(events.len(), |i: int| events[i]@)
}

/// The mathematical content of a list of steps.
pub open spec fn spec_steps_view(steps: Seq<(Stage, Action)>) -> Seq<(Stage, ActionView)> {
    Seq::new(steps.len(), |i: int| (steps[i].0, steps[i].1@))
}

/// A run that stopped before the end of its events is not changed by events
/// that come after them.
pub proof fn lemma_run_stays_stopped(
    plan: PlanView,
    stage: Stage,
    events: Seq<EventView>,
    more: Seq<EventView>,
)
    requires
        spec_run(plan, stage, events).len() < events.len(),
    ensures
        spec_run(plan, stage, events + more) == spec_run(plan, stage, events),
    decreases events.len(),
{
    let all = events + more;
    assert(all[0] == events[0]);
    match spec_step(plan, stage, events[0]) {
        Some(first) => {
            assert(all.drop_first() =~= events.drop_first() + more);
            lemma_run_stays_stopped(plan, first.0, events.drop_first(), more);
        },
        None => {},
    }
}

/// A run that took a step for each of its events goes on, at one more event,
/// with the transition of the stage it has reached, and stops where that
/// stage does not wait for the event.
pub proof fn lemma_run_goes_on(
    plan: PlanView,
    stage: Stage,
    events: Seq<EventView>,
    event: EventView,
)
    requires
        spec_run(plan, stage, events).len() == events.len(),
    ensures
        spec_run(plan, stage, events.push(event)) == match spec_step(
            plan,
            spec_stage_before(spec_run(plan, stage, events), stage, events.len() as int),
            event,
        ) {
            Some(next) => spec_run(plan, stage, events).push(next),
            None => spec_run(plan, stage, events),
        },
    decreases events.len(),
{
    let run = spec_run(plan, stage, events);
    let longer = events.push(event);
    if events.len() == 0 {
        assert(longer.drop_first() =~= Seq::<EventView>::empty());
        match spec_step(plan, stage, event) {
            Some(next) => {
                assert(spec_run(plan, next.0, longer.drop_first()) =~= Seq::empty());
                assert(spec_run(plan, stage, longer) =~= run.push(next));
            },
            None => {},
        }
    } else {
        assert(longer[0] == events[0]);
        let first = spec_step(plan, stage, events[0])->0;
        let rest = events.drop_first();
        let tail = spec_run(plan, first.0, rest);
        assert(run == seq![first] + tail);
        assert(longer.drop_first() =~= rest.push(event));
        lemma_run_goes_on(plan, first.0, rest, event);
        assert(spec_stage_before(run, stage, events.len() as int) == spec_stage_before(
            tail,
            first.0,
            rest.len() as int,
        )) by {
            if rest.len() > 0 {
                assert(run[events.len() - 1] == tail[rest.len() - 1]);
            }
        }
        match spec_step(plan, spec_stage_before(tail, first.0, rest.len() as int), event) {
            Some(next) => {
                assert(seq![first] + tail.push(next) =~= run.push(next));
            },
            None => {},
        }
    }
}

/// Tells the run of `plan` the `events` one after the other, from the start,
/// and returns its steps: for each event the stage entered and the action
/// asked for, up to the first event that the run does not wait for.
pub fn replay<'a>(plan: &'a Plan, events: Vec<Event>) -> (steps: Vec<(Stage, Action<'a>)>)
    ensures
        spec_steps_view(steps@) == spec_run(plan@, Stage::Start, spec_events_view(events@)),
{
    let ghost told = spec_events_view(events@);
    let mut steps: Vec<(Stage, Action<'a>)> = Vec::new();
    let mut stage = Stage::Start;
    let mut running = true;
    assert(told.take(0) =~= Seq::empty());
    for event in iter: events.into_iter()
        invariant
            told == spec_events_view(events@),
            iter.seq() == events@,
            running ==> steps.len() == iter.index(),
            running ==> spec_steps_view(steps@) == spec_run(
                plan@,
                Stage::Start,
                told.take(iter.index() as int),
            ),
            running ==> stage == spec_stage_before(
                spec_steps_view(steps@),
                Stage::Start,
                steps.len() as int,
            ),
            !running ==> spec_steps_view(steps@) == spec_run(plan@, Stage::Start, told),
    {
        if running {
            let ghost i = iter.index() as int;
            let ghost before = spec_steps_view(steps@);
            proof {
                assert(told.take(i + 1) =~= told.take(i).push(event@));
                lemma_run_goes_on(plan@, Stage::Start, told.take(i), event@);
            }
            match step(plan, stage, event) {
                Some((next, action)) => {
                    steps.push((next, action));
                    stage = next;
                    assert(spec_steps_view(steps@) =~= before.push((next, action@)));
                },
                None => {
                    running = false;
                    proof {
                        assert(told =~= told.take(i + 1) + told.skip(i + 1));
                        lemma_run_stays_stopped(
                            plan@,
                            Stage::Start,
                            told.take(i + 1),
                            told.skip(i + 1),
                        );
                    }
                },
            }
        }
    }
    assert(told.take(told.len() as int) =~= told);
    steps
}

/// Step `i` of a run asks for the action of the stage it enters, enters that
/// stage from a stage and on an event that lead to it, and where it fails
/// the run, fails it with the failure that its stage and event bring about.
pub proof fn lemma_run_shape(plan: PlanView, stage: Stage, events: Seq<EventView>, i: int)
    requires
        0 <= i < spec_run(plan, stage, events).len(),
    ensures
        i < events.len(),
        spec_asks(plan, spec_run(plan, stage, events)[i].0, spec_run(plan, stage, events)[i].1),
        spec_leads_to(
            spec_stage_before(spec_run(plan, stage, events), stage, i),
            events[i],
            spec_run(plan, stage, events)[i].0,
        ),
        spec_run(plan, stage, events)[i].0 == Stage::Failed ==> spec_run(plan, stage, events)[i].1
            == (ActionView::Finish {
            outcome: Err(
                spec_failure(
                    spec_stage_before(spec_run(plan, stage, events), stage, i),
                    events[i],
                ),
            ),
        }),
{
    let run = spec_run(plan, stage, events);
    lemma_run_follows_steps(plan, stage, events);
    assert(spec_step(plan, spec_stage_before(run, stage, i), events[i]) == Some(run[i]));
    lemma_step_shape(plan, spec_stage_before(run, stage, i), events[i]);
}

/// Of two steps of a run, the later one enters the later stage.
pub proof fn lemma_run_order(plan: PlanView, stage: Stage, events: Seq<EventView>, i: int, j: int)
    requires
        0 <= i < j < spec_run(plan, stage, events).len(),
    ensures
        spec_rank(spec_run(plan, stage, events)[i].0) < spec_rank(
            spec_run(plan, stage, events)[j].0,
        ),
{
    lemma_run_advances(plan, stage, events);
}

/// A run begins by looking for the cache file: the first step, if there is
/// one, answers the beginning of the run with the probe of the plan's cache
/// file. So the second event of a run says whether the cache file exists.
pub proof fn lemma_run_begins_with_cache_probe(plan: PlanView, events: Seq<EventView>)
    requires
        spec_run(plan, Stage::Start, events).len() > 0,
    ensures
        events[0] == EventView::Begin,
        spec_run(plan, Stage::Start, events)[0] == (
            Stage::CacheCheck,
            ActionView::ProbeArtifact { file: plan.artifact },
        ),
{
    lemma_run_shape(plan, Stage::Start, events, 0);
}

/// Cache hit: when the cache file is found in place, the run never asks for
/// a fetch, whatever happens afterwards.
pub proof fn lemma_cache_hit_never_fetches(plan: PlanView, events: Seq<EventView>, i: int)
    requires
        events.len() >= 2,
        events[1] == EventView::Found(true),
        0 <= i < spec_run(plan, Stage::Start, events).len(),
    ensures
        !(spec_run(plan, Stage::Start, events)[i].1 is Fetch),
{
    let run = spec_run(plan, Stage::Start, events);
    lemma_run_shape(plan, Stage::Start, events, i);
    if run[i].1 is Fetch {
        assert(run[i].0 == Stage::Download);
        lemma_run_shape(plan, Stage::Start, events, 0);
        assert(run[0].0 == Stage::CacheCheck);
        assert(i >= 1);
        lemma_run_shape(plan, Stage::Start, events, 1);
        assert(run[1].0 == Stage::OutputCheck);
        assert(i >= 2);
        lemma_run_order(plan, Stage::Start, events, 1, i);
    }
}

/// No run fetches twice, and a fetch always asks for the release that the
/// request names: at the address made from that version, into the cache file
/// for that version.
pub proof fn lemma_fetch_is_single_and_versioned(
    request: RequestView,
    cache_root: Seq<char>,
    cache_dir: Option<PathBuf>,
    events: Seq<EventView>,
    i: int,
    j: int,
)
    requires
        0 <= i < spec_run(spec_plan(request, cache_root, cache_dir), Stage::Start, events).len(),
        0 <= j < spec_run(spec_plan(request, cache_root, cache_dir), Stage::Start, events).len(),
        spec_run(spec_plan(request, cache_root, cache_dir), Stage::Start, events)[i].1 is Fetch,
        spec_run(spec_plan(request, cache_root, cache_dir), Stage::Start, events)[j].1 is Fetch,
    ensures
        i == j,
        spec_run(spec_plan(request, cache_root, cache_dir), Stage::Start, events)[i].1 == (
        ActionView::Fetch {
            url: spec_artifact_url(request.version),
            dest: spec_artifact_path(cache_root, request.version),
        }),
{
    let plan = spec_plan(request, cache_root, cache_dir);
    let run = spec_run(plan, Stage::Start, events);
    lemma_run_shape(plan, Stage::Start, events, i);
    lemma_run_shape(plan, Stage::Start, events, j);
    assert(run[i].0 == Stage::Download);
    assert(run[j].0 == Stage::Download);
    if i < j {
        lemma_run_order(plan, Stage::Start, events, i, j);
    }
    if j < i {
        lemma_run_order(plan, Stage::Start, events, j, i);
    }
}

/// Cache miss: when the cache file is not found, a run that gets as far as
/// looking at the output directory has asked for the fetch in the step
/// before, and was told that the fetch was done. With the lemma above, it
/// has fetched exactly once.
pub proof fn lemma_cache_miss_fetches_first(plan: PlanView, events: Seq<EventView>, k: int)
    requires
        events.len() >= 2,
        events[1] == EventView::Found(false),
        0 <= k < spec_run(plan, Stage::Start, events).len(),
        spec_run(plan, Stage::Start, events)[k].1 is ProbeOutput,
    ensures
        k >= 2,
        spec_run(plan, Stage::Start, events)[k - 1].1 == (ActionView::Fetch {
            url: plan.url,
            dest: plan.artifact,
        }),
        events[k] == EventView::Completed,
{
    let run = spec_run(plan, Stage::Start, events);
    lemma_run_shape(plan, Stage::Start, events, k);
    assert(run[k].0 == Stage::OutputCheck);
    lemma_run_shape(plan, Stage::Start, events, 0);
    assert(run[0].0 == Stage::CacheCheck);
    assert(k >= 2);
    lemma_run_shape(plan, Stage::Start, events, k - 1);
    lemma_run_order(plan, Stage::Start, events, 0, k - 1);
    assert(run[k - 1].0 == Stage::Download);
}

/// The generator is started only on an output directory that is known to be
/// gone: the step before the launch looked for the directory and did not
/// find it, or removed it and succeeded.
pub proof fn lemma_launch_follows_cleared_output(plan: PlanView, events: Seq<EventView>, i: int)
    requires
        0 <= i < spec_run(plan, Stage::Start, events).len(),
        spec_run(plan, Stage::Start, events)[i].1 is Launch,
    ensures
        i >= 1,
        ({
            &&& spec_run(plan, Stage::Start, events)[i - 1].1 == (ActionView::ProbeOutput {
                dir: plan.request.output_dir,
            })
            &&& events[i] == EventView::Found(false)
        }) || ({
            &&& spec_run(plan, Stage::Start, events)[i - 1].1 == (ActionView::ClearOutput {
                dir: plan.request.output_dir,
            })
            &&& events[i] == EventView::Completed
        }),
{
    let run = spec_run(plan, Stage::Start, events);
    lemma_run_shape(plan, Stage::Start, events, i);
    assert(run[i].0 == Stage::Invoke);
    assert(i >= 1);
    lemma_run_shape(plan, Stage::Start, events, i - 1);
}

/// An output directory that was found is removed next: the step that hears
/// of it asks for the removal, and for nothing else.
pub proof fn lemma_found_output_is_cleared(plan: PlanView, events: Seq<EventView>, i: int)
    requires
        1 <= i < spec_run(plan, Stage::Start, events).len(),
        spec_run(plan, Stage::Start, events)[i - 1].1 is ProbeOutput,
        events[i] == EventView::Found(true),
    ensures
        spec_run(plan, Stage::Start, events)[i] == (
            Stage::OutputClear,
            ActionView::ClearOutput { dir: plan.request.output_dir },
        ),
{
    let run = spec_run(plan, Stage::Start, events);
    lemma_run_shape(plan, Stage::Start, events, i - 1);
    assert(run[i - 1].0 == Stage::OutputCheck);
    lemma_run_shape(plan, Stage::Start, events, i);
}

/// Failure is handed on: a generator that exits without success fails the
/// run, and so does any work that the driver reports as failed, with a
/// failure whose text is the reason reported.
pub proof fn lemma_failure_fails_run(plan: PlanView, events: Seq<EventView>, i: int)
    requires
        0 <= i < spec_run(plan, Stage::Start, events).len(),
    ensures
        events[i] == EventView::Exited(false) ==> spec_run(plan, Stage::Start, events)[i] == (
            Stage::Failed,
            ActionView::Finish { outcome: Err(FailureView::Generation) },
        ),
        events[i] matches EventView::Faulted(reason) ==> {
            &&& spec_run(plan, Stage::Start, events)[i].0 == Stage::Failed
            &&& spec_run(plan, Stage::Start, events)[i].1 matches ActionView::Finish {
                outcome: Err(failure),
            }
            &&& failure.message() == reason
        },
{
    lemma_run_shape(plan, Stage::Start, events, i);
}

/// A run ends with success only when the generator was started in the step
/// before and exited with success.
pub proof fn lemma_success_follows_successful_exit(
    plan: PlanView,
    events: Seq<EventView>,
    i: int,
)
    requires
        0 <= i < spec_run(plan, Stage::Start, events).len(),
        spec_run(plan, Stage::Start, events)[i].1 == (ActionView::Finish { outcome: Ok(()) }),
    ensures
        i >= 1,
        spec_run(plan, Stage::Start, events)[i - 1].1 is Launch,
        events[i] == EventView::Exited(true),
{
    let run = spec_run(plan, Stage::Start, events);
    lemma_run_shape(plan, Stage::Start, events, i);
    assert(run[i].0 == Stage::Succeeded);
    assert(i >= 1);
    lemma_run_shape(plan, Stage::Start, events, i - 1);
}

/// Nothing follows the end of a run: the step that finishes it is the last.
pub proof fn lemma_finish_is_last(plan: PlanView, events: Seq<EventView>, i: int)
    requires
        0 <= i < spec_run(plan, Stage::Start, events).len(),
        spec_run(plan, Stage::Start, events)[i].1 is Finish,
    ensures
        i == spec_run(plan, Stage::Start, events).len() - 1,
{
    let run = spec_run(plan, Stage::Start, events);
    lemma_run_shape(plan, Stage::Start, events, i);
    assert(run[i].0 == Stage::Succeeded || run[i].0 == Stage::Failed);
    if i + 1 < run.len() {
        lemma_run_order(plan, Stage::Start, events, i, i + 1);
    }
}

} // verus!
