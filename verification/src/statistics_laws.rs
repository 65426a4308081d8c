//! What holds of every run of the aggregator, whatever samples arrive.

use vstd::prelude::*;
use crate::statistics::{Sample, StatsEvent, WindowView};

verus! {

/// The totals of the current window after `events`, handled in order.
pub open spec fn after(w: WindowView, events: Seq<StatsEvent>) -> WindowView
    decreases events.len(),
{
    if events.len() == 0 {
        w
    } else {
        after(w, events.drop_last()).handle(events.last()).0
    }
}

/// The totals of the windows that were closed, in order, while `events` were
/// handled: one entry for each report that came out.
pub open spec fn reports(w: WindowView, events: Seq<StatsEvent>) -> Seq<WindowView>
    decreases events.len(),
{
    if events.len() == 0 {
        Seq::empty()
    } else {
        let earlier = reports(w, events.drop_last());
        match after(w, events.drop_last()).handle(events.last()).1 {
            Some(closed) => earlier.push(closed),
            None => earlier,
        }
    }
}

/// How many times the timer fired among `events`.
pub open spec fn timer_count(events: Seq<StatsEvent>) -> nat
    decreases events.len(),
{
    if events.len() == 0 {
        0
    } else if events.last() == StatsEvent::TimerFired {
        timer_count(events.drop_last()) + 1
    } else {
        timer_count(events.drop_last())
    }
}

/// The events of `count` samples of the same size in a row.
pub open spec fn steady(sample: Sample, count: nat) -> Seq<StatsEvent> {
    Seq::new(count, |i: int| StatsEvent::SampleArrived(sample))
}

/// The aggregator reports exactly once per timer firing, however many
/// samples arrive in between, none included.
pub proof fn lemma_one_report_per_timer(w: WindowView, events: Seq<StatsEvent>)
    ensures
        reports(w, events).len() == timer_count(events),
    decreases events.len(),
{
    if events.len() > 0 {
        lemma_one_report_per_timer(w, events.drop_last());
    }
}

/// Right after the timer fired the counters are zero, whatever came before,
/// and the report that came out holds the totals as they stood.
pub proof fn lemma_timer_resets(w: WindowView, events: Seq<StatsEvent>)
    ensures
        after(w, events.push(StatsEvent::TimerFired)) == WindowView::empty(),
        reports(w, events.push(StatsEvent::TimerFired)) == reports(w, events).push(
            after(w, events),
        ),
{
    assert(events.push(StatsEvent::TimerFired).drop_last() =~= events);
}

/// A sample adds to the totals of the current window and brings out no
/// report.
pub proof fn lemma_sample_accumulates(w: WindowView, events: Seq<StatsEvent>, sample: Sample)
    ensures
        after(w, events.push(StatsEvent::SampleArrived(sample))) == after(w, events).record(
            sample,
        ),
        reports(w, events.push(StatsEvent::SampleArrived(sample))) == reports(w, events),
{
    assert(events.push(StatsEvent::SampleArrived(sample)).drop_last() =~= events);
}

/// The window that follows a report starts from zero: when the timer fires
/// again with no sample in between, the report that comes out is of an empty
/// window.
pub proof fn lemma_idle_window_reports_zero(w: WindowView, events: Seq<StatsEvent>)
    ensures
        reports(w, events.push(StatsEvent::TimerFired).push(StatsEvent::TimerFired)).last()
            == WindowView::empty(),
{
    let once = events.push(StatsEvent::TimerFired);
    lemma_timer_resets(w, events);
    lemma_timer_resets(w, once);
}

/// After `count` samples of the same size, the window's totals have grown by
/// `count` times the sample.
pub proof fn lemma_steady_samples(w: WindowView, sample: Sample, count: nat)
    ensures
        after(w, steady(sample, count)) == (WindowView {
            bytes: (w.bytes + count * sample.bytes) as nat,
            packets: (w.packets + count * sample.packets) as nat,
        }),
        reports(w, steady(sample, count)).len() == 0,
    decreases count,
{
    if count > 0 {
        let shorter = (count - 1) as nat;
        lemma_steady_samples(w, sample, shorter);
        assert(steady(sample, count).drop_last() =~= steady(sample, shorter));
        assert(count * sample.bytes == shorter * sample.bytes + sample.bytes)
            by (nonlinear_arith)
            requires
                count == shorter + 1,
        ;
        assert(count * sample.packets == shorter * sample.packets + sample.packets)
            by (nonlinear_arith)
            requires
                count == shorter + 1,
        ;
    } else {
        assert(0 * sample.bytes == 0 && 0 * sample.packets == 0) by (nonlinear_arith);
    }
}

} // verus!
