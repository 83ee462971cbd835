//! What a run emits, as a function of its tasks and of the trials it is fed.
//!
//! A trial is a candidate point together with the uniform random number that
//! decides on it. The run hands trial after trial to the task that owns it,
//! and emits the candidates that pass the acceptance test, in the order of
//! the trials.
use vstd::prelude::*;
use crate::aabb::AxisAlignedBoundingBox;
use crate::distribution::{decide, Distribution};
use crate::point::Point2D;
use crate::sampling_task::SamplingTask;
use crate::scalar::Scalar;
use crate::schedule::{attempts_before, lemma_owner_grows, lemma_owner_range, owner};

verus! {

/// One candidate and the random number, from 0 up to and not reaching 1,
/// that it is tested with.
#[derive(Clone, Copy, Debug)]
pub struct Trial {
    pub candidate: Point2D,
    pub draw: Scalar,
}

/// An accepted candidate and the index of the task that accepted it.
pub struct Emitted {
    pub task: int,
    pub point: Point2D,
}

/// The budgets of the tasks, in their order.
pub open spec fn budgets_of<D: Distribution + ?Sized>(tasks: Seq<SamplingTask<'_, D>>) -> Seq<u64> {
    Seq::new(tasks.len(), |i: int| tasks[i].attempts())
}

/// What trial number `k` of a run emits: the candidate, for the task that
/// owns the trial, when the draw is strictly below that task's density at
/// the candidate; nothing otherwise, and nothing once the run is over.
pub open spec fn emission<D: Distribution + ?Sized>(
    tasks: Seq<SamplingTask<'_, D>>,
    k: int,
    trial: Trial,
) -> Option<Emitted> {
    let t = owner(budgets_of(tasks), k);
    if 0 <= t < tasks.len() && decide(
        trial.candidate,
        tasks[t].distribution().density(trial.candidate),
        trial.draw,
    ) is Some {
        Some(Emitted { task: t, point: trial.candidate })
    } else {
        None
    }
}

/// An emission as a sequence of at most one item.
pub open spec fn as_seq(e: Option<Emitted>) -> Seq<Emitted> {
    match e {
        Some(e) => seq![e],
        None => Seq::empty(),
    }
}

/// Everything that a run emits while it is fed `trials`, in order.
pub open spec fn run<D: Distribution + ?Sized>(
    tasks: Seq<SamplingTask<'_, D>>,
    trials: Seq<Trial>,
) -> Seq<Emitted>
    decreases trials.len(),
{
    if trials.len() == 0 {
        Seq::empty()
    } else {
        run(tasks, trials.drop_last()) + as_seq(
            emission(tasks, trials.len() - 1, trials.last()),
        )
    }
}

/// How many of the emitted points task `t` accepted.
pub open spec fn count_for(emitted: Seq<Emitted>, t: int) -> nat
    decreases emitted.len(),
{
    if emitted.len() == 0 {
        0
    } else {
        let rest = count_for(emitted.drop_last(), t);
        if emitted.last().task == t {
            rest + 1
        } else {
            rest
        }
    }
}

/// Feeding one more trial appends what that trial emits.
pub proof fn lemma_run_push<D: Distribution + ?Sized>(
    tasks: Seq<SamplingTask<'_, D>>,
    trials: Seq<Trial>,
    trial: Trial,
)
    ensures
        run(tasks, trials.push(trial)) == run(tasks, trials) + as_seq(
            emission(tasks, trials.len() as int, trial),
        ),
{
    assert(trials.push(trial).drop_last() =~= trials);
}

/// The run is a function of the tasks and the trials: two runs over the same
/// tasks that are fed the same candidates and the same draws, one by one,
/// emit the same points for the same tasks in the same order.
pub proof fn lemma_run_is_deterministic<D: Distribution + ?Sized>(
    tasks: Seq<SamplingTask<'_, D>>,
    first: Seq<Trial>,
    second: Seq<Trial>,
)
    requires
        first.len() == second.len(),
        forall|i: int|
            0 <= i < first.len() ==> first[i].candidate == second[i].candidate && first[i].draw
                == second[i].draw,
    ensures
        run(tasks, first) == run(tasks, second),
{
    assert(first =~= second);
}

/// No run emits more points than it was fed trials.
pub proof fn lemma_emitted_at_most_fed<D: Distribution + ?Sized>(
    tasks: Seq<SamplingTask<'_, D>>,
    trials: Seq<Trial>,
)
    ensures
        run(tasks, trials).len() <= trials.len(),
    decreases trials.len(),
{
    if trials.len() > 0 {
        lemma_emitted_at_most_fed(tasks, trials.drop_last());
    }
}

/// The number of trials, among the first `n`, that belong to a task with the
/// given start and budget.
spec fn served(start: int, budget: int, n: int) -> int {
    if n <= start {
        0
    } else if n - start <= budget {
        n - start
    } else {
        budget
    }
}

proof fn lemma_count_within_served<D: Distribution + ?Sized>(
    tasks: Seq<SamplingTask<'_, D>>,
    trials: Seq<Trial>,
    t: int,
)
    requires
        0 <= t < tasks.len(),
    ensures
        count_for(run(tasks, trials), t) <= served(
            attempts_before(budgets_of(tasks), t),
            tasks[t].attempts() as int,
            trials.len() as int,
        ),
    decreases trials.len(),
{
    if trials.len() > 0 {
        let before = trials.drop_last();
        let k = trials.len() - 1;
        lemma_count_within_served(tasks, before, t);
        match emission(tasks, k, trials.last()) {
            Some(e) => {
                assert(run(tasks, trials) =~= run(tasks, before).push(e));
                assert(run(tasks, trials).drop_last() =~= run(tasks, before));
                if e.task == t {
                    lemma_owner_range(budgets_of(tasks), k);
                }
            },
            None => {
                assert(run(tasks, trials) =~= run(tasks, before));
            },
        }
    }
}

/// However many trials a run is fed, a task accepts no more points than its
/// budget of attempts.
pub proof fn lemma_attempt_bound<D: Distribution + ?Sized>(
    tasks: Seq<SamplingTask<'_, D>>,
    trials: Seq<Trial>,
    t: int,
)
    requires
        0 <= t < tasks.len(),
    ensures
        count_for(run(tasks, trials), t) <= tasks[t].attempts(),
{
    lemma_count_within_served(tasks, trials, t);
}

/// Every emitted point is one of the candidates, so when all candidates lie
/// in the region, all emitted points do: each `x` from `min_x` up to and not
/// reaching `max_x`, each `y` from `min_y` up to and not reaching `max_y`.
pub proof fn lemma_emitted_in_region<D: Distribution + ?Sized>(
    region: AxisAlignedBoundingBox,
    tasks: Seq<SamplingTask<'_, D>>,
    trials: Seq<Trial>,
)
    requires
        forall|i: int| 0 <= i < trials.len() ==> region.covers(#[trigger] trials[i].candidate),
    ensures
        forall|j: int|
            0 <= j < run(tasks, trials).len() ==> region.covers(
                #[trigger] run(tasks, trials)[j].point,
            ),
    decreases trials.len(),
{
    if trials.len() > 0 {
        let before = trials.drop_last();
        assert forall|i: int| 0 <= i < before.len() implies region.covers(
            #[trigger] before[i].candidate,
        ) by {
            assert(before[i] == trials[i]);
        }
        lemma_emitted_in_region(region, tasks, before);
        assert(region.covers(trials[trials.len() - 1].candidate));
        assert forall|j: int| 0 <= j < run(tasks, trials).len() implies region.covers(
            #[trigger] run(tasks, trials)[j].point,
        ) by {
            if j < run(tasks, before).len() {
                assert(run(tasks, trials)[j] == run(tasks, before)[j]);
            }
        }
    }
}

proof fn lemma_emitted_tasks_bounded<D: Distribution + ?Sized>(
    tasks: Seq<SamplingTask<'_, D>>,
    trials: Seq<Trial>,
)
    ensures
        forall|j: int|
            0 <= j < run(tasks, trials).len() ==> 0 <= (#[trigger] run(tasks, trials)[j]).task
                <= owner(budgets_of(tasks), trials.len() - 1),
        forall|i: int, j: int|
            0 <= i <= j < run(tasks, trials).len() ==> (#[trigger] run(tasks, trials)[i]).task <= (
            #[trigger] run(tasks, trials)[j]).task,
    decreases trials.len(),
{
    if trials.len() > 0 {
        let before = trials.drop_last();
        let k = trials.len() - 1;
        let all = run(tasks, trials);
        let head = run(tasks, before);
        lemma_emitted_tasks_bounded(tasks, before);
        lemma_emitted_at_most_fed(tasks, before);
        lemma_owner_range(budgets_of(tasks), k);
        if before.len() > 0 {
            lemma_owner_grows(budgets_of(tasks), before.len() - 1, k);
        }
        assert forall|j: int| 0 <= j < all.len() implies 0 <= (#[trigger] all[j]).task <= owner(
            budgets_of(tasks),
            k,
        ) by {
            if j < head.len() {
                assert(all[j] == head[j]);
            }
        }
        assert forall|i: int, j: int| 0 <= i <= j < all.len() implies (#[trigger] all[i]).task <= (
        #[trigger] all[j]).task by {
            if j < head.len() {
                assert(all[i] == head[i]);
                assert(all[j] == head[j]);
            } else if i < head.len() {
                assert(all[i] == head[i]);
            }
        }
    }
}

/// Tasks are served in the order in which they were given: among the emitted
/// points, those of an earlier task come before those of a later one.
pub proof fn lemma_emitted_in_task_order<D: Distribution + ?Sized>(
    tasks: Seq<SamplingTask<'_, D>>,
    trials: Seq<Trial>,
    i: int,
    j: int,
)
    requires
        0 <= i <= j < run(tasks, trials).len(),
    ensures
        0 <= run(tasks, trials)[i].task <= run(tasks, trials)[j].task < tasks.len(),
{
    lemma_emitted_tasks_bounded(tasks, trials);
    lemma_emitted_at_most_fed(tasks, trials);
    lemma_emitted_owned(tasks, trials, j);
}

/// Every emitted point belongs to one of the tasks.
proof fn lemma_emitted_owned<D: Distribution + ?Sized>(
    tasks: Seq<SamplingTask<'_, D>>,
    trials: Seq<Trial>,
    j: int,
)
    requires
        0 <= j < run(tasks, trials).len(),
    ensures
        0 <= run(tasks, trials)[j].task < tasks.len(),
    decreases trials.len(),
{
    if trials.len() > 0 {
        let before = trials.drop_last();
        if j < run(tasks, before).len() {
            lemma_emitted_owned(tasks, before, j);
            assert(run(tasks, trials)[j] == run(tasks, before)[j]);
        }
    }
}

} // verus!
