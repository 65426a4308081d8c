use crab_net::bandwidth::{
    bandwidth_label, bandwidth_line, format_bandwidth, packet_rate_line, theoretical_bandwidth,
    theoretical_packet_rate, window_bandwidth, WINDOW_SECONDS,
};
use crab_net::statistics::{
    report_line, summary_line, AggregationWindow, Report, Sample, StatsEvent,
};

#[test]
fn samples_accumulate_without_a_report() {
    let mut window = AggregationWindow::new();
    assert_eq!(window.bytes_sent(), 0);
    assert_eq!(window.packets_sent(), 0);
    let sample = Sample { bytes: 16, packets: 1 };
    assert_eq!(window.handle(StatsEvent::SampleArrived(sample)), None);
    assert_eq!(window.handle(StatsEvent::SampleArrived(sample)), None);
    window.record(Sample { bytes: 100, packets: 3 });
    assert_eq!(window.bytes_sent(), 132);
    assert_eq!(window.packets_sent(), 5);
}

#[test]
fn one_report_per_timer_and_counters_reset() {
    let mut window = AggregationWindow::new();
    let mut reports = Vec::new();
    let mut timers = 0;
    let sample = StatsEvent::SampleArrived(Sample { bytes: 25, packets: 1 });
    let events = [
        sample,
        sample,
        StatsEvent::TimerFired,
        StatsEvent::TimerFired,
        sample,
        sample,
        sample,
        sample,
        StatsEvent::TimerFired,
    ];
    for event in events {
        if event == StatsEvent::TimerFired {
            timers += 1;
        }
        if let Some(report) = window.handle(event) {
            reports.push(report);
            assert_eq!(window.bytes_sent(), 0);
            assert_eq!(window.packets_sent(), 0);
        }
    }
    assert_eq!(reports.len(), timers);
    assert_eq!(
        reports,
        vec![
            Report { packets: 2, bits_per_second: 40 },
            Report { packets: 0, bits_per_second: 0 },
            Report { packets: 4, bits_per_second: 80 },
        ]
    );
}

#[test]
fn timer_fires_on_an_empty_window() {
    let mut window = AggregationWindow::new();
    assert_eq!(
        window.handle(StatsEvent::TimerFired),
        Some(Report { packets: 0, bits_per_second: 0 })
    );
    assert_eq!(window.close(), Report { packets: 0, bits_per_second: 0 });
}

#[test]
fn window_bandwidth_is_bits_over_ten_seconds_rounded_up() {
    assert_eq!(WINDOW_SECONDS, 10);
    assert_eq!(window_bandwidth(0), 0);
    assert_eq!(window_bandwidth(1), 1);
    assert_eq!(window_bandwidth(5), 4);
    assert_eq!(window_bandwidth(6), 5);
    assert_eq!(window_bandwidth(600), 480);
    assert_eq!(window_bandwidth(1_250_000), 1_000_000);
    assert_eq!(window_bandwidth(u64::MAX), 14_757_395_258_967_641_292);
}

#[test]
fn can_record_guards_the_counters() {
    let mut window = AggregationWindow::new();
    window.record(Sample { bytes: usize::MAX, packets: 1 });
    assert!(window.can_record(Sample { bytes: 0, packets: usize::MAX - 1 }));
    assert!(!window.can_record(Sample { bytes: 1, packets: 0 }));
    assert!(!window.can_record(Sample { bytes: 0, packets: usize::MAX }));
    assert_eq!(window.bytes_sent(), u64::MAX);
}

#[test]
fn bandwidth_is_formatted_in_decimal_units() {
    assert_eq!(format_bandwidth(0), Some(String::from("0 ")));
    assert_eq!(format_bandwidth(480), Some(String::from("480 ")));
    assert_eq!(format_bandwidth(999), Some(String::from("999 ")));
    assert_eq!(format_bandwidth(1000), Some(String::from("1 K")));
    assert_eq!(format_bandwidth(4800), Some(String::from("4.8 K")));
    assert_eq!(format_bandwidth(1_000_000), Some(String::from("1 M")));
    assert_eq!(format_bandwidth(2_500_000_000), Some(String::from("2.5 G")));
}

#[test]
fn bandwidth_label_drops_the_last_character() {
    assert_eq!(bandwidth_label("480 B"), "480 ");
    assert_eq!(bandwidth_label("4.8 KB"), "4.8 K");
    assert_eq!(bandwidth_label("B"), "");
    assert_eq!(bandwidth_label("1 \u{00b5}"), "1 ");
}

#[test]
fn report_line_has_the_documented_shape() {
    assert_eq!(report_line(60, "480 "), "Sent 60 packets --- Bandwidth 480 bit/s");
    assert_eq!(report_line(0, "0 "), "Sent 0 packets --- Bandwidth 0 bit/s");
    assert_eq!(
        report_line(18_446_744_073_709_551_615, "1.5 G"),
        "Sent 18446744073709551615 packets --- Bandwidth 1.5 Gbit/s"
    );
}

#[test]
fn summary_line_of_a_report() {
    let report = Report { packets: 600, bits_per_second: 4800 };
    assert_eq!(
        summary_line(&report),
        Some(String::from("Sent 600 packets --- Bandwidth 4.8 Kbit/s"))
    );
    let idle = Report { packets: 0, bits_per_second: 0 };
    assert_eq!(summary_line(&idle), Some(String::from("Sent 0 packets --- Bandwidth 0 bit/s")));
}

#[test]
fn theoretical_figures() {
    assert_eq!(theoretical_packet_rate(3, 2), Some(6));
    assert_eq!(theoretical_packet_rate(0, 1000), Some(0));
    assert_eq!(theoretical_packet_rate(usize::MAX, 2), None);
    assert_eq!(theoretical_bandwidth(3, 2, 10), Some(480));
    assert_eq!(theoretical_bandwidth(1, 1, 16), Some(128));
    assert_eq!(theoretical_bandwidth(0, usize::MAX, usize::MAX), Some(0));
    assert_eq!(theoretical_bandwidth(usize::MAX, usize::MAX, 0), Some(0));
    assert_eq!(theoretical_bandwidth(usize::MAX, 1, 1), None);
    assert_eq!(theoretical_bandwidth(1 << 20, 1 << 20, 1 << 20), Some(1 << 63));
    assert_eq!(theoretical_bandwidth(1 << 20, 1 << 21, 1 << 20), None);
    assert_eq!(theoretical_bandwidth(1 << 32, 1 << 32, 1), None);
}

#[test]
fn startup_lines() {
    assert_eq!(packet_rate_line(6), "Theoretical Packets rate: 6 pkt/sec");
    assert_eq!(bandwidth_line("480 "), "Theoretical Bandwidth: 480 bit/s");
    let label = format_bandwidth(theoretical_bandwidth(100, 10, 125).unwrap()).unwrap();
    assert_eq!(bandwidth_line(&label), "Theoretical Bandwidth: 1 Mbit/s");
}
