use crab_net::bandwidth::theoretical_bandwidth;
use crab_net::config::{ConfigurationError, Endpoint, Parameters, TransportMode};
use crab_net::manager::{Action, Event, Manager, Phase};
use crab_net::pacing::{send_interval_nanos, NANOS_PER_SECOND};
use crab_net::payload::generate_payloads;
use crab_net::sender::{Sender, SenderAction, SenderEvent};
use crab_net::statistics::{summary_line, AggregationWindow, Report};
use crab_net::transport::local_bind_address;

#[test]
fn three_plain_udp_connections_over_one_window() {
    let target = Endpoint::V4 { octets: [192, 0, 2, 1], port: 5000 };
    let params = Parameters::new(target, 2, 3, 10, 9000, 50, (true, (false, None)));
    assert_eq!(params.validate(), Ok(TransportMode::Udp));

    let mut manager = Manager::new(&params);
    let mut window = AggregationWindow::new();
    let mut senders: Vec<Sender> = Vec::new();
    let mut bound: Vec<String> = Vec::new();

    let mut action = manager.step(Event::Begin);
    assert_eq!(action, Some(Action::StartAggregator { capacity: 3 }));
    action = manager.step(Event::AggregatorReady);
    while let Some(Action::Launch(plan)) = action {
        assert_eq!(plan.mode, TransportMode::Udp);
        bound.push(local_bind_address(plan.local_port));
        let payload = generate_payloads(plan.payload_len);
        senders.push(Sender::new(plan.id, payload, params.rate).unwrap());
        assert_eq!(manager.step(Event::Launched), Some(Action::Pause { millis: 50 }));
        action = manager.step(Event::PauseElapsed);
    }
    assert_eq!(action, Some(Action::Supervise));
    assert_eq!(manager.phase(), Phase::Supervising);
    assert_eq!(bound, vec!["0.0.0.0:9000", "0.0.0.0:9001", "0.0.0.0:9002"]);

    let interval = send_interval_nanos(params.rate).unwrap();
    let ticks = 10 * NANOS_PER_SECOND / interval;
    assert_eq!(ticks, 20);
    for sender in senders.iter_mut() {
        for _ in 0..ticks {
            assert_eq!(sender.step(SenderEvent::Tick), Some(SenderAction::Transmit));
            assert_eq!(sender.payload().len(), 10);
            match sender.step(SenderEvent::WriteSucceeded) {
                Some(SenderAction::Submit(sample)) => {
                    assert!(window.can_record(sample));
                    window.record(sample);
                }
                other => panic!("no sample after a write: {:?}", other),
            }
            assert_eq!(sender.step(SenderEvent::SampleSubmitted), Some(SenderAction::AwaitTick));
        }
    }

    let report = window.close();
    assert_eq!(report, Report { packets: 60, bits_per_second: 480 });
    assert_eq!(Some(report.bits_per_second), theoretical_bandwidth(3, 2, 10));
    assert_eq!(
        summary_line(&report),
        Some(String::from("Sent 60 packets --- Bandwidth 480 bit/s"))
    );
    assert_eq!(window.close(), Report { packets: 0, bits_per_second: 0 });
}

#[test]
fn secure_mode_with_empty_ca_opens_no_socket() {
    let target = Endpoint::V4 { octets: [192, 0, 2, 1], port: 5000 };
    for udp in [true, false] {
        let ca = Some(String::from(""));
        let params = Parameters::new(target, 2, 3, 10, 9000, 50, (udp, (true, ca)));
        assert_eq!(params.validate(), Err(ConfigurationError::MissingCaFile));
        let mut manager = Manager::new(&params);
        let mut actions = Vec::new();
        for event in [
            Event::Begin,
            Event::AggregatorReady,
            Event::Launched,
            Event::PauseElapsed,
            Event::SenderEnded,
            Event::Begin,
        ] {
            if let Some(action) = manager.step(event) {
                actions.push(action);
            }
        }
        assert_eq!(actions, vec![Action::Reject(ConfigurationError::MissingCaFile)]);
        assert_eq!(manager.launched(), 0);
        assert_eq!(manager.phase(), Phase::Rejected);
    }
}
