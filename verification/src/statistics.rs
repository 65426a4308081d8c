//! The statistics aggregator: rolling counters over a fixed window, fed by
//! the senders' samples and closed by a timer.
//!
//! The aggregator is driven by two kinds of event that never overlap: a
//! sample arrives, or the window's timer fires. A sample only adds to the
//! running totals. The timer closes the window: it yields one report and
//! starts the next window from zero, whether or not any sample arrived.

use vstd::prelude::*;
use vstd::string::*;
use crate::bandwidth::{
    decimal_unit_text,
    format_bandwidth,
    window_bandwidth,
    window_rate,
    without_unit_letter,
};
use crate::text::{decimal, decimal_text};

verus! {

/// What a sender reports for one successful transmission.
#[derive(Clone, Copy, Debug, PartialEq, Eq, Structural)]
pub struct Sample {
    /// Bytes sent.
    pub bytes: usize,
    /// Packets sent.
    pub packets: usize,
}

/// What the aggregator reports when a window closes.
#[derive(Clone, Copy, Debug, PartialEq, Eq, Structural)]
pub struct Report {
    /// Packets sent in the window.
    pub packets: u64,
    /// Bandwidth over the window, in bits per second.
    pub bits_per_second: u64,
}

/// What can happen to the aggregator.
#[derive(Clone, Copy, Debug, PartialEq, Eq, Structural)]
pub enum StatsEvent {
    /// The window's timer fired.
    TimerFired,
    /// A sample arrived from a sender.
    SampleArrived(Sample),
}

/// The totals of a window as mathematical values.
pub struct WindowView {
    pub bytes: nat,
    pub packets: nat,
}

impl WindowView {
    /// The window in which nothing was sent.
    pub open spec fn empty() -> WindowView {
        WindowView { bytes: 0, packets: 0 }
    }

    /// The totals after `sample` was added.
    pub open spec fn record(self, sample: Sample) -> WindowView {
        WindowView {
            bytes: self.bytes + sample.bytes as nat,
            packets: self.packets + sample.packets as nat,
        }
    }

    /// Whether the totals fit the counters.
    pub open spec fn fits(self) -> bool {
        self.bytes <= u64::MAX && self.packets <= u64::MAX
    }

    /// The report of a window with these totals.
    pub open spec fn report(self) -> Report
        recommends
            self.fits(),
    {
        Report { packets: self.packets as u64, bits_per_second: window_rate(self.bytes) as u64 }
    }

    /// The transition function: the totals after `event`, and the totals of
    /// the window that the event closed, if it closed one.
    pub open spec fn handle(self, event: StatsEvent) -> (WindowView, Option<WindowView>) {
        match event {
            StatsEvent::TimerFired => (WindowView::empty(), Some(self)),
            StatsEvent::SampleArrived(sample) => (self.record(sample), None),
        }
    }
}

/// The rolling counters of the current window.
pub struct AggregationWindow {
    bytes_sent: u64,
    packets_sent: u64,
}

impl View for AggregationWindow {
    type V = WindowView;

    closed spec fn view(&self) -> WindowView {
        WindowView { bytes: self.bytes_sent as nat, packets: self.packets_sent as nat }
    }
}

impl AggregationWindow {
    /// A window in which nothing was sent yet.
    pub fn new() -> (window: AggregationWindow)
        ensures
            window@ == WindowView::empty(),
    {
        AggregationWindow { bytes_sent: 0, packets_sent: 0 }
    }

    /// Bytes sent in the current window so far.
    pub fn bytes_sent(&self) -> (bytes: u64)
        ensures
            bytes == self@.bytes,
    {
        self.bytes_sent
    }

    /// Packets sent in the current window so far.
    pub fn packets_sent(&self) -> (packets: u64)
        ensures
            packets == self@.packets,
    {
        self.packets_sent
    }

    /// Whether `sample` can be added without a counter running over.
    pub fn can_record(&self, sample: Sample) -> (fits: bool)
        ensures
            fits == self@.record(sample).fits(),
    {
        sample.bytes as u64 <= u64::MAX - self.bytes_sent && sample.packets as u64 <= u64::MAX
            - self.packets_sent
    }

    /// Adds a sample to the running totals. Nothing is reported or reset.
    pub fn record(&mut self, sample: Sample)
        requires
            old(self)@.record(sample).fits(),
        ensures
            final(self)@ == old(self)@.record(sample),
    {
        self.bytes_sent = self.bytes_sent + sample.bytes as u64;
        self.packets_sent = self.packets_sent + sample.packets as u64;
    }

    /// Closes the window: reports its packet count and bandwidth, and starts
    /// the next window from zero.
    pub fn close(&mut self) -> (report: Report)
        ensures
            report == old(self)@.report(),
            final(self)@ == WindowView::empty(),
    {
        let report = Report {
            packets: self.packets_sent,
            bits_per_second: window_bandwidth(self.bytes_sent),
        };
        self.bytes_sent = 0;
        self.packets_sent = 0;
        report
    }

    /// Handles one event: a sample is added to the totals, the timer closes
    /// the window. A report comes out exactly when the timer fired.
    pub fn handle(&mut self, event: StatsEvent) -> (report: Option<Report>)
        requires
            old(self)@.handle(event).0.fits(),
        ensures
            final(self)@ == old(self)@.handle(event).0,
            event == StatsEvent::TimerFired ==> report == Some(old(self)@.report()),
            event != StatsEvent::TimerFired ==> report.is_none(),
    {
        match event {
            StatsEvent::TimerFired => Some(self.close()),
            StatsEvent::SampleArrived(sample) => {
                self.record(sample);
                None
            },
        }
    }
}

/// The summary line of a window: its packet count, and its bandwidth as a
/// figure that ends in `bit/s`.
pub open spec fn summary_text(packets: nat, bandwidth: Seq<char>) -> Seq<char> {
    "Sent "@ + decimal(packets) + " packets --- Bandwidth "@ + bandwidth + "bit/s"@
}

/// Writes the summary line for a packet count and a bandwidth stem such as
/// `"480 "` or `"4.8 K"`.
pub fn report_line(packets: u64, bandwidth: &str) -> (line: String)
    ensures
        line@ == summary_text(packets as nat, bandwidth@),
{
    let mut line = String::from_str("Sent ");
    let count = decimal_text(packets);
    line.append(count.as_str());
    line.append(" packets --- Bandwidth ");
    line.append(bandwidth);
    line.append("bit/s");
    line
}

/// Writes the summary line of a report, with the bandwidth in the decimal
/// unit that suits it.
///
/// `None` exactly when `byte_unit` gives no text for the bandwidth.
pub fn summary_line(report: &Report) -> (line: Option<String>)
    ensures
        decimal_unit_text(report.bits_per_second).len() > 0 ==> line.is_some() && line.unwrap()@
            == summary_text(
            report.packets as nat,
            without_unit_letter(decimal_unit_text(report.bits_per_second)),
        ),
        decimal_unit_text(report.bits_per_second).len() == 0 ==> line.is_none(),
{
    match format_bandwidth(report.bits_per_second) {
        Some(bandwidth) => Some(report_line(report.packets, bandwidth.as_str())),
        None => None,
    }
}

} // verus!
