//! Which task each trial of a run belongs to.
//!
//! A run tests candidates one after another. The tasks are served in the
//! order in which they were given, each for as many trials as its budget
//! says, so the budgets alone decide the owner of the trial with a given
//! number (counted from 0).
use vstd::prelude::*;

verus! {

/// The number of trials that belong to the tasks before task `t`.
pub open spec fn attempts_before(budgets: Seq<u64>, t: int) -> int
    decreases t,
{
    if t <= 0 || t > budgets.len() {
        0
    } else {
        attempts_before(budgets, t - 1) + budgets[t - 1]
    }
}

/// The number of trials of a whole run.
pub open spec fn total_attempts(budgets: Seq<u64>) -> int {
    attempts_before(budgets, budgets.len() as int)
}

/// The first task from `t` on whose trials reach beyond trial `k`, or the
/// number of tasks when there is none.
pub open spec fn owner_from(budgets: Seq<u64>, t: int, k: int) -> int
    decreases budgets.len() - t,
{
    if t < 0 || t >= budgets.len() {
        budgets.len() as int
    } else if k < attempts_before(budgets, t + 1) {
        t
    } else {
        owner_from(budgets, t + 1, k)
    }
}

/// The task that trial `k` belongs to, or the number of tasks when the run
/// is over before trial `k`.
pub open spec fn owner(budgets: Seq<u64>, k: int) -> int {
    owner_from(budgets, 0, k)
}

/// Later tasks start later.
pub proof fn lemma_attempts_before_grows(budgets: Seq<u64>, t: int, u: int)
    requires
        0 <= t <= u <= budgets.len(),
    ensures
        0 <= attempts_before(budgets, t) <= attempts_before(budgets, u),
    decreases u,
{
    if t < u {
        lemma_attempts_before_grows(budgets, t, u - 1);
    } else if t > 0 {
        lemma_attempts_before_grows(budgets, 0, t - 1);
    }
}

proof fn lemma_owner_from_range(budgets: Seq<u64>, t: int, k: int)
    requires
        0 <= t <= budgets.len(),
        attempts_before(budgets, t) <= k,
    ensures
        ({
            let o = owner_from(budgets, t, k);
            &&& t <= o <= budgets.len()
            &&& attempts_before(budgets, o) <= k
            &&& o < budgets.len() ==> k < attempts_before(budgets, o + 1)
            &&& o == budgets.len() ==> total_attempts(budgets) <= k
        }),
    decreases budgets.len() - t,
{
    if t < budgets.len() && k >= attempts_before(budgets, t + 1) {
        lemma_owner_from_range(budgets, t + 1, k);
    }
}

/// The owner of trial `k` is the task whose stretch of trials holds `k`;
/// trials from the total on have no owner.
pub proof fn lemma_owner_range(budgets: Seq<u64>, k: int)
    requires
        0 <= k,
    ensures
        ({
            let o = owner(budgets, k);
            &&& 0 <= o <= budgets.len()
            &&& attempts_before(budgets, o) <= k
            &&& o < budgets.len() ==> k < attempts_before(budgets, o) + budgets[o]
            &&& o == budgets.len() <==> total_attempts(budgets) <= k
        }),
{
    lemma_owner_from_range(budgets, 0, k);
    let o = owner(budgets, k);
    if o < budgets.len() {
        lemma_attempts_before_grows(budgets, o + 1, budgets.len() as int);
    }
}

/// A trial that lies in the stretch of task `t` belongs to task `t`.
pub proof fn lemma_owner_is(budgets: Seq<u64>, t: int, k: int)
    requires
        0 <= t < budgets.len(),
        attempts_before(budgets, t) <= k < attempts_before(budgets, t) + budgets[t],
    ensures
        owner(budgets, k) == t,
{
    lemma_attempts_before_grows(budgets, 0, t);
    lemma_owner_range(budgets, k);
    let o = owner(budgets, k);
    if o < t {
        lemma_attempts_before_grows(budgets, o + 1, t);
    } else if o > t {
        lemma_attempts_before_grows(budgets, t + 1, o);
    }
}

/// Each task makes exactly as many attempts as its budget says: the trials
/// that belong to task `t` are the `budgets[t]` trials from the one where
/// the task starts.
pub proof fn lemma_task_stretch(budgets: Seq<u64>, t: int, k: int)
    requires
        0 <= t < budgets.len(),
        0 <= k,
    ensures
        owner(budgets, k) == t <==> attempts_before(budgets, t) <= k < attempts_before(budgets, t)
            + budgets[t],
{
    lemma_owner_range(budgets, k);
    if attempts_before(budgets, t) <= k < attempts_before(budgets, t) + budgets[t] {
        lemma_owner_is(budgets, t, k);
    }
}

/// Tasks are served in the order in which they were given: a later trial
/// never belongs to an earlier task.
pub proof fn lemma_owner_grows(budgets: Seq<u64>, j: int, k: int)
    requires
        0 <= j <= k,
    ensures
        owner(budgets, j) <= owner(budgets, k),
{
    lemma_owner_range(budgets, j);
    lemma_owner_range(budgets, k);
    let a = owner(budgets, j);
    let b = owner(budgets, k);
    if b < a {
        lemma_attempts_before_grows(budgets, b + 1, a);
    }
}

} // verus!
