//! The run, one trial at a time.
//!
//! Drawing candidates and writing records are the caller's business. The
//! caller feeds the runner one trial after another; the runner keeps the
//! place in the schedule, tests the candidate against the density of the
//! task whose turn it is, and hands back the record to write, if any.
use vstd::prelude::*;
use crate::aabb::{AxisAlignedBoundingBox, RegionError};
use crate::distribution::{sample, Distribution};
use crate::run::{as_seq, budgets_of, emission, lemma_run_push, run, Emitted, Trial};
use crate::sampling_task::SamplingTask;
use crate::scalar::Scalar;
use crate::schedule::{attempts_before, lemma_attempts_before_grows, lemma_owner_is, owner, total_attempts};

verus! {

/// An accepted point with the label of the task that accepted it: one line
/// of output.
#[derive(Clone, Copy, Debug)]
pub struct Sample<'a> {
    pub x: Scalar,
    pub y: Scalar,
    pub label: &'a str,
}

impl<'a> Sample<'a> {
    /// Whether this record carries the point of `e` and the label of the
    /// task of `e`.
    pub open spec fn records<D: Distribution + ?Sized>(
        self,
        tasks: Seq<SamplingTask<'_, D>>,
        e: Emitted,
    ) -> bool {
        &&& self.x == e.point.x
        &&& self.y == e.point.y
        &&& self.label@ == tasks[e.task].label()
    }
}

/// A run in progress over a region and a list of tasks.
pub struct Runner<'a, D: Distribution + ?Sized> {
    region: &'a AxisAlignedBoundingBox,
    tasks: &'a [SamplingTask<'a, D>],
    task: usize,
    attempt: u64,
    consumed: Ghost<Seq<Trial>>,
}

/// The first task from `from` on that has attempts left to make, or the
/// number of tasks.
fn first_pending<D: Distribution + ?Sized>(tasks: &[SamplingTask<'_, D>], from: usize) -> (r: usize)
    requires
        from <= tasks@.len(),
    ensures
        from <= r <= tasks@.len(),
        r < tasks@.len() ==> tasks@[r as int].attempts() > 0,
        attempts_before(budgets_of(tasks@), r as int) == attempts_before(
            budgets_of(tasks@),
            from as int,
        ),
{
    let mut i: usize = from;
    while i < tasks.len() && tasks[i].get_num_sampling_attempts() == 0
        invariant
            from <= i <= tasks@.len(),
            attempts_before(budgets_of(tasks@), i as int) == attempts_before(
                budgets_of(tasks@),
                from as int,
            ),
        decreases tasks@.len() - i,
    {
        i = i + 1;
    }
    i
}

impl<'a, D: Distribution + ?Sized> Runner<'a, D> {
    /// The region that candidates come from.
    pub closed spec fn region(&self) -> AxisAlignedBoundingBox {
        *self.region
    }

    /// The tasks, in the order in which they are served.
    pub closed spec fn tasks(&self) -> Seq<SamplingTask<'a, D>> {
        self.tasks@
    }

    /// The trials fed so far, in order.
    pub closed spec fn consumed(&self) -> Seq<Trial> {
        self.consumed@
    }

    /// The points accepted so far, in order.
    pub open spec fn emitted(&self) -> Seq<Emitted> {
        run(self.tasks(), self.consumed())
    }

    /// The number of trials of the whole run: the sum of the budgets.
    pub open spec fn total(&self) -> int {
        total_attempts(budgets_of(self.tasks()))
    }

    /// The task whose turn it is.
    pub open spec fn current_task(&self) -> int {
        owner(budgets_of(self.tasks()), self.consumed().len() as int)
    }

    /// Whether every task has made all its attempts.
    pub open spec fn finished(&self) -> bool {
        self.consumed().len() == self.total()
    }

    /// The runner's place agrees with the trials it was fed, and all of
    /// these came from its region, which can be sampled from.
    pub closed spec fn wf(&self) -> bool {
        &&& self.region.samplable()
        &&& forall|i: int|
            0 <= i < self.consumed@.len() ==> self.region.covers(
                #[trigger] self.consumed@[i].candidate,
            )
        &&& self.task <= self.tasks@.len()
        &&& attempts_before(budgets_of(self.tasks@), self.task as int) + self.attempt
            == self.consumed@.len()
        &&& self.task < self.tasks@.len() ==> self.attempt < self.tasks@[self.task as int].attempts()
        &&& self.task == self.tasks@.len() ==> self.attempt == 0
    }

    /// What holds of every runner: its region can be sampled from, every
    /// candidate it was fed lies in that region, and it was fed no more
    /// trials than the budgets add up to.
    pub proof fn lemma_invariant(&self)
        requires
            self.wf(),
        ensures
            self.region().samplable(),
            forall|i: int|
                0 <= i < self.consumed().len() ==> self.region().covers(
                    #[trigger] self.consumed()[i].candidate,
                ),
            self.consumed().len() <= self.total(),
            !self.finished() ==> 0 <= self.current_task() < self.tasks().len(),
    {
        self.lemma_place();
    }

    proof fn lemma_place(&self)
        requires
            self.wf(),
        ensures
            self.consumed@.len() <= self.total(),
            self.finished() <==> self.task == self.tasks@.len(),
            !self.finished() ==> self.current_task() == self.task,
    {
        let budgets = budgets_of(self.tasks@);
        if self.task < self.tasks@.len() {
            lemma_attempts_before_grows(budgets, self.task + 1, budgets.len() as int);
            lemma_owner_is(budgets, self.task as int, self.consumed@.len() as int);
        }
    }

    /// Begins a run over `region` and `tasks`, with no trial fed yet. Fails,
    /// before anything is drawn, when the region cannot be sampled from.
    pub fn start(region: &'a AxisAlignedBoundingBox, tasks: &'a [SamplingTask<'a, D>]) -> (r:
        Result<Self, RegionError>)
        ensures
            match r {
                Ok(runner) => {
                    &&& region.verdict() is Ok
                    &&& runner.wf()
                    &&& runner.region() == *region
                    &&& runner.tasks() == tasks@
                    &&& runner.consumed() == Seq::<Trial>::empty()
                },
                Err(e) => region.verdict() == Err::<(), RegionError>(e),
            },
    {
        match region.check() {
            Err(e) => Err(e),
            Ok(()) => {
                let task = first_pending(tasks, 0);
                Ok(Runner { region, tasks, task, attempt: 0, consumed: Ghost(Seq::empty()) })
            },
        }
    }

    /// Whether the run is over: every task has made all its attempts.
    pub fn is_finished(&self) -> (r: bool)
        requires
            self.wf(),
        ensures
            r == self.finished(),
    {
        proof {
            self.lemma_place();
        }
        self.task == self.tasks.len()
    }

    /// Feeds the next trial: tests its candidate against the density of the
    /// task whose turn it is, and hands back the record to write when the
    /// candidate is accepted. The candidate must have been drawn from the
    /// region.
    pub fn step(&mut self, trial: Trial) -> (r: Option<Sample<'a>>)
        requires
            old(self).wf(),
            !old(self).finished(),
            old(self).region().covers(trial.candidate),
        ensures
            final(self).wf(),
            final(self).region() == old(self).region(),
            final(self).tasks() == old(self).tasks(),
            final(self).consumed() == old(self).consumed().push(trial),
            final(self).emitted() == old(self).emitted() + as_seq(
                emission(old(self).tasks(), old(self).consumed().len() as int, trial),
            ),
            match (r, emission(old(self).tasks(), old(self).consumed().len() as int, trial)) {
                (Some(s), Some(e)) => s.records(old(self).tasks(), e),
                (None, None) => true,
                _ => false,
            },
    {
        proof {
            self.lemma_place();
            lemma_run_push(self.tasks@, self.consumed@, trial);
        }
        let tasks: &'a [SamplingTask<'a, D>] = self.tasks;
        let task: &'a SamplingTask<'a, D> = &tasks[self.task];
        let r = match sample(trial.candidate, task.get_distribution(), trial.draw) {
            Some(p) => Some(Sample { x: p.x, y: p.y, label: task.get_label() }),
            None => None,
        };
        self.consumed = Ghost(self.consumed@.push(trial));
        self.attempt = self.attempt + 1;
        if self.attempt == task.get_num_sampling_attempts() {
            self.task = first_pending(tasks, self.task + 1);
            self.attempt = 0;
        }
        r
    }
}

} // verus!
