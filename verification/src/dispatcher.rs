//! The main-thread dispatcher: a narrow single-shot task queue used to
//! defer "mark needing paint" requests out of the callback that raised
//! them, avoiding reentrant paint-inside-paint recursion.
//!
//! The host enqueues a block on the UI run loop for each scheduled task;
//! the verified state models the queue and the at-most-once execution
//! guarantee: a task invoked a second time — for instance through a
//! double-scheduled block — reports the repeat so the host can log and
//! skip it, rather than re-executing its effect.  There is no
//! cancellation, no priority, and no contract beyond first-in-first-out
//! per registration.

use vstd::prelude::*;

verus! {

/// What invoking a scheduled task produced.
#[derive(Clone, Copy, Debug, PartialEq, Eq)]
pub enum TaskOutcome {
    /// The task ran its effect, for the first and only time.
    Executed,
    /// The task had already run; the repeat must be logged and skipped.
    SkippedRepeat,
}

/// A one-shot deferred task.  The flag stands for the consumed closure
/// slot: once taken, nothing is left to run.
#[derive(Clone, Copy, Debug, PartialEq, Eq)]
pub struct OneShotTask {
    /// Whether the task has already run.
    pub consumed: bool,
}

/// The outcome invoking a task in state `t` produces.
pub open spec fn outcome_of(t: OneShotTask) -> TaskOutcome {
    if t.consumed {
        TaskOutcome::SkippedRepeat
    } else {
        TaskOutcome::Executed
    }
}

/// The task state after one invocation.
pub open spec fn invoked(t: OneShotTask) -> OneShotTask {
    OneShotTask { consumed: true }
}

/// The task state after `n` invocations.
pub open spec fn invoked_n(t: OneShotTask, n: nat) -> OneShotTask
    decreases n,
{
    if n == 0 {
        t
    } else {
        invoked(invoked_n(t, (n - 1) as nat))
    }
}

/// The outcome of the `k`-th invocation of a task (counting from zero).
pub open spec fn nth_outcome(t: OneShotTask, k: nat) -> TaskOutcome {
    outcome_of(invoked_n(t, k))
}

impl OneShotTask {
    /// A fresh task, not yet run.
    pub fn new() -> (t: Self)
        ensures
            !t.consumed,
    {
        OneShotTask { consumed: false }
    }

    /// Run the task.  The first invocation executes; every later one
    /// reports the repeat so the host logs and skips it.
    pub fn invoke(&mut self) -> (outcome: TaskOutcome)
        ensures
            *final(self) == invoked(*old(self)),
            outcome == outcome_of(*old(self)),
    {
        if self.consumed {
            TaskOutcome::SkippedRepeat
        } else {
            self.consumed = true;
            TaskOutcome::Executed
        }
    }
}

/// After at least one invocation a task is consumed for good.
pub proof fn lemma_invoked_stays_consumed(t: OneShotTask, n: nat)
    requires
        1 <= n,
    ensures
        invoked_n(t, n).consumed,
    decreases n,
{
    if n > 1 {
        lemma_invoked_stays_consumed(t, (n - 1) as nat);
    }
}

/// Law (at-most-once execution): a fresh task executes on its first
/// invocation and on no later one — every repeat is skipped.
pub proof fn lemma_task_runs_at_most_once(t: OneShotTask, k: nat)
    requires
        !t.consumed,
    ensures
        nth_outcome(t, 0) == TaskOutcome::Executed,
        1 <= k ==> nth_outcome(t, k) == TaskOutcome::SkippedRepeat,
{
    if 1 <= k {
        lemma_invoked_stays_consumed(t, k);
    }
}

/// The queue of deferred tasks, run on the UI thread's run loop in the
/// order they were scheduled.
pub struct MainThreadDispatcher {
    /// Pending tasks, earliest first.
    pub queue: Vec<OneShotTask>,
}

impl MainThreadDispatcher {
    /// An empty dispatcher.
    pub fn new() -> (d: Self)
        ensures
            d.queue@ == Seq::<OneShotTask>::empty(),
    {
        MainThreadDispatcher { queue: Vec::new() }
    }

    /// Enqueue a fresh one-shot task behind everything scheduled earlier.
    pub fn schedule(&mut self)
        ensures
            final(self).queue@ == old(self).queue@.push(OneShotTask { consumed: false }),
    {
        self.queue.push(OneShotTask::new());
    }

    /// One run-loop iteration: take the earliest scheduled task, if any,
    /// and invoke it.
    pub fn run_next(&mut self) -> (outcome: Option<TaskOutcome>)
        ensures
            old(self).queue@.len() == 0 ==> outcome is None && final(self).queue@ == old(
                self,
            ).queue@,
            old(self).queue@.len() > 0 ==> outcome == Some(outcome_of(old(self).queue@[0]))
                && final(self).queue@ == old(self).queue@.drop_first(),
    {
        if self.queue.len() == 0 {
            None
        } else {
            let mut t = self.queue.remove(0);
            let outcome = t.invoke();
            proof {
                assert(old(self).queue@.remove(0) =~= old(self).queue@.drop_first());
            }
            Some(outcome)
        }
    }
}

} // verus!
