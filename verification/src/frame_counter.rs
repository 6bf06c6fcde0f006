//! Rolling frames-per-second accounting.
//!
//! The counter records one tick per presented frame and, at most once per
//! elapsed second, produces a report carrying the frame count and the
//! elapsed wall-clock time.  The clock is supplied by the caller as a
//! millisecond timestamp, so the arithmetic here is verified for every
//! reading the host hands in; the host decides whether reports are driven
//! purely by frames or also by a background timer that polls `print`.

use vstd::prelude::*;

verus! {

/// One frame-rate report, produced when more than a second has elapsed
/// since the previous report.
#[derive(Clone, Copy, Debug, PartialEq, Eq)]
pub struct FpsReport {
    /// Frames recorded since the previous report.
    pub frame_count: u32,
    /// Wall-clock milliseconds since the previous report; always above 1000.
    pub elapsed_ms: u64,
    /// Frames per second in thousandths: `frame_count * 1_000_000 / elapsed_ms`.
    pub fps_milli: u64,
}

/// Rolling counter state: the timestamp of the last report and the number
/// of frames recorded since then.
#[derive(Clone, Copy, Debug, PartialEq, Eq)]
pub struct FrameCounterState {
    /// Millisecond timestamp at which the last report was produced.
    pub last_printed_ms: u64,
    /// Frames recorded since the last report.
    pub frame_count: u32,
}

/// A report is due once strictly more than one second has elapsed since
/// the last one.
pub open spec fn report_due(s: FrameCounterState, now_ms: u64) -> bool {
    now_ms - s.last_printed_ms > 1000
}

/// The report that `print` hands back at time `now_ms`, if one is due.
pub open spec fn report_of_print(s: FrameCounterState, now_ms: u64) -> Option<FpsReport> {
    if report_due(s, now_ms) {
        Some(FpsReport {
            frame_count: s.frame_count,
            elapsed_ms: (now_ms - s.last_printed_ms) as u64,
            fps_milli: (s.frame_count * 1_000_000 / (now_ms - s.last_printed_ms)) as u64,
        })
    } else {
        None
    }
}

/// The counter state after `print` at time `now_ms`: reporting resets the
/// count and moves the report timestamp, otherwise nothing changes.
pub open spec fn counter_after_print(s: FrameCounterState, now_ms: u64) -> FrameCounterState {
    if report_due(s, now_ms) {
        FrameCounterState { last_printed_ms: now_ms, frame_count: 0 }
    } else {
        s
    }
}

/// The counter with one more frame recorded.
pub open spec fn counter_bumped(s: FrameCounterState) -> FrameCounterState {
    FrameCounterState { last_printed_ms: s.last_printed_ms, frame_count: (s.frame_count + 1) as u32 }
}

/// The counter state after `update` at time `now_ms`.
pub open spec fn counter_after_update(s: FrameCounterState, now_ms: u64) -> FrameCounterState {
    counter_after_print(counter_bumped(s), now_ms)
}

/// The report that `update` hands back at time `now_ms`, if one is due.
pub open spec fn report_of_update(s: FrameCounterState, now_ms: u64) -> Option<FpsReport> {
    report_of_print(counter_bumped(s), now_ms)
}

/// The counter state after a whole sequence of `update` calls, one per
/// timestamp in `times`, in order.
pub open spec fn counter_after_updates(s: FrameCounterState, times: Seq<u64>) -> FrameCounterState
    decreases times.len(),
{
    if times.len() == 0 {
        s
    } else {
        counter_after_update(counter_after_updates(s, times.drop_last()), times.last())
    }
}

impl FrameCounterState {
    /// A fresh counter: no frames yet, last report at creation time.
    pub fn new(now_ms: u64) -> (s: Self)
        ensures
            s == (FrameCounterState { last_printed_ms: now_ms, frame_count: 0u32 }),
    {
        FrameCounterState { last_printed_ms: now_ms, frame_count: 0 }
    }

    /// Record one frame at time `now_ms`, then report if a report is due.
    pub fn update(&mut self, now_ms: u64) -> (report: Option<FpsReport>)
        requires
            old(self).frame_count < u32::MAX,
            old(self).last_printed_ms <= now_ms,
        ensures
            *final(self) == counter_after_update(*old(self), now_ms),
            report == report_of_update(*old(self), now_ms),
    {
        self.frame_count = self.frame_count + 1;
        self.print(now_ms)
    }

    /// Produce a report if strictly more than one second has elapsed since
    /// the last one, resetting the count; otherwise leave the counter
    /// untouched and produce nothing.
    pub fn print(&mut self, now_ms: u64) -> (report: Option<FpsReport>)
        requires
            old(self).last_printed_ms <= now_ms,
        ensures
            *final(self) == counter_after_print(*old(self), now_ms),
            report == report_of_print(*old(self), now_ms),
    {
        let elapsed_ms: u64 = now_ms - self.last_printed_ms;
        if elapsed_ms > 1000 {
            let fps_milli: u64 = (self.frame_count as u64) * 1_000_000 / elapsed_ms;
            let report = FpsReport { frame_count: self.frame_count, elapsed_ms, fps_milli };
            self.last_printed_ms = now_ms;
            self.frame_count = 0;
            Some(report)
        } else {
            None
        }
    }
}

/// Law: frames recorded while at most one second has elapsed since the
/// last report only accumulate; the report timestamp does not move.
pub proof fn lemma_window_accumulates(s: FrameCounterState, times: Seq<u64>)
    requires
        s.frame_count + times.len() <= u32::MAX,
        forall|i: int|
            0 <= i < times.len() ==> s.last_printed_ms <= #[trigger] times[i]
                <= s.last_printed_ms + 1000,
    ensures
        counter_after_updates(s, times) == (FrameCounterState {
            last_printed_ms: s.last_printed_ms,
            frame_count: (s.frame_count + times.len()) as u32,
        }),
    decreases times.len(),
{
    if times.len() == 0 {
        assert(counter_after_updates(s, times) == s);
    } else {
        let prefix = times.drop_last();
        assert(forall|i: int|
            0 <= i < prefix.len() ==> s.last_printed_ms <= #[trigger] prefix[i]
                <= s.last_printed_ms + 1000);
        lemma_window_accumulates(s, prefix);
    }
}

/// Law: after exactly `times.len()` frames recorded within a window of at
/// most one second, no report has been emitted; the first frame recorded
/// strictly after the window closes emits exactly one report, counting
/// every frame, and resets the count to zero.
pub proof fn lemma_window_then_single_report(s: FrameCounterState, times: Seq<u64>, t: u64)
    requires
        s.frame_count + times.len() < u32::MAX,
        forall|i: int|
            0 <= i < times.len() ==> s.last_printed_ms <= #[trigger] times[i]
                <= s.last_printed_ms + 1000,
        s.last_printed_ms + 1000 < t,
    ensures
        forall|i: int|
            0 <= i < times.len() ==> #[trigger] report_of_update(
                counter_after_updates(s, times.take(i)),
                times[i],
            ) is None,
        report_of_update(counter_after_updates(s, times), t) == Some(FpsReport {
            frame_count: (s.frame_count + times.len() + 1) as u32,
            elapsed_ms: (t - s.last_printed_ms) as u64,
            fps_milli: ((s.frame_count + times.len() + 1) * 1_000_000
                / (t - s.last_printed_ms)) as u64,
        }),
        counter_after_update(counter_after_updates(s, times), t) == (FrameCounterState {
            last_printed_ms: t,
            frame_count: 0u32,
        }),
{
    assert forall|i: int|
        0 <= i < times.len() implies #[trigger] report_of_update(
        counter_after_updates(s, times.take(i)),
        times[i],
    ) is None by {
        let prefix = times.take(i);
        assert(forall|j: int|
            0 <= j < prefix.len() ==> s.last_printed_ms <= #[trigger] prefix[j]
                <= s.last_printed_ms + 1000);
        lemma_window_accumulates(s, prefix);
    }
    lemma_window_accumulates(s, times);
}

} // verus!
