use render_bridge::dispatcher::MainThreadDispatcher;
use render_bridge::dispatcher::OneShotTask;
use render_bridge::dispatcher::TaskOutcome;

#[test]
fn task_executes_exactly_once() {
    let mut t = OneShotTask::new();
    assert_eq!(t.invoke(), TaskOutcome::Executed);
    assert_eq!(t.invoke(), TaskOutcome::SkippedRepeat);
    assert_eq!(t.invoke(), TaskOutcome::SkippedRepeat);
}

#[test]
fn dispatcher_runs_tasks_in_fifo_order() {
    let mut d = MainThreadDispatcher::new();
    d.schedule();
    d.schedule();
    assert_eq!(d.queue.len(), 2);
    assert_eq!(d.run_next(), Some(TaskOutcome::Executed));
    assert_eq!(d.run_next(), Some(TaskOutcome::Executed));
    assert_eq!(d.run_next(), None);
}

#[test]
fn dispatcher_reports_repeat_of_consumed_task() {
    let mut d = MainThreadDispatcher::new();
    d.schedule();
    // A double-scheduled block reaches the run loop with its closure
    // already taken: the repeat is reported, not re-executed.
    d.queue[0].invoke();
    assert_eq!(d.run_next(), Some(TaskOutcome::SkippedRepeat));
    assert_eq!(d.run_next(), None);
}
