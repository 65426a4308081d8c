use crab_net::pacing::{send_interval_nanos, NANOS_PER_SECOND};
use crab_net::payload::generate_payloads;
use crab_net::sender::{Sender, SenderAction, SenderEvent, SenderPhase};
use crab_net::statistics::Sample;

#[test]
fn interval_is_one_second_over_the_rate() {
    assert_eq!(NANOS_PER_SECOND, 1_000_000_000);
    assert_eq!(send_interval_nanos(1), Some(1_000_000_000));
    assert_eq!(send_interval_nanos(2), Some(500_000_000));
    assert_eq!(send_interval_nanos(3), Some(333_333_333));
    assert_eq!(send_interval_nanos(1000), Some(1_000_000));
    assert_eq!(send_interval_nanos(1_000_000_000), Some(1));
    assert_eq!(send_interval_nanos(600_000_000), Some(1));
}

#[test]
fn rates_that_cannot_be_paced() {
    assert_eq!(send_interval_nanos(0), None);
    assert_eq!(send_interval_nanos(1_000_000_001), None);
    assert_eq!(send_interval_nanos(usize::MAX), None);
    assert!(Sender::new(0, vec![1, 2, 3], 0).is_none());
    assert!(Sender::new(0, vec![1, 2, 3], 1_000_000_001).is_none());
}

#[test]
fn packet_count_over_a_window_matches_the_rate() {
    for (rate, seconds) in [(2u64, 10u64), (3, 10), (7, 60), (1000, 10), (999_999, 5)] {
        let interval = send_interval_nanos(rate as usize).unwrap();
        let ticks = seconds * NANOS_PER_SECOND / interval;
        assert!(ticks >= rate * seconds);
        assert!(
            (ticks as u128) * ((NANOS_PER_SECOND - rate) as u128)
                <= (rate * seconds) as u128 * NANOS_PER_SECOND as u128
        );
    }
    let interval = send_interval_nanos(2).unwrap();
    assert_eq!(10 * NANOS_PER_SECOND / interval, 20);
    let interval = send_interval_nanos(3).unwrap();
    assert_eq!(10 * NANOS_PER_SECOND / interval, 30);
}

#[test]
fn payload_has_the_requested_length() {
    assert_eq!(generate_payloads(0).len(), 0);
    assert_eq!(generate_payloads(1).len(), 1);
    assert_eq!(generate_payloads(16).len(), 16);
    assert_eq!(generate_payloads(1500).len(), 1500);
}

#[test]
fn payload_is_not_constant() {
    let payload = generate_payloads(4096);
    let first = payload[0];
    assert!(payload.iter().any(|byte| *byte != first));
    assert_ne!(generate_payloads(64), generate_payloads(64));
}

#[test]
fn sender_cycle() {
    let mut sender = Sender::new(4, vec![9; 10], 2).unwrap();
    assert_eq!(sender.id(), 4);
    assert_eq!(sender.interval_nanos(), 500_000_000);
    assert_eq!(sender.phase(), SenderPhase::AwaitingTick);
    assert_eq!(sender.step(SenderEvent::Tick), Some(SenderAction::Transmit));
    assert_eq!(sender.phase(), SenderPhase::Writing);
    assert_eq!(
        sender.step(SenderEvent::WriteSucceeded),
        Some(SenderAction::Submit(Sample { bytes: 10, packets: 1 }))
    );
    assert_eq!(sender.phase(), SenderPhase::Reporting);
    assert_eq!(sender.step(SenderEvent::SampleSubmitted), Some(SenderAction::AwaitTick));
    assert_eq!(sender.phase(), SenderPhase::AwaitingTick);
    assert!(!sender.is_stopped());
}

#[test]
fn payload_is_identical_across_transmissions() {
    let payload = generate_payloads(48);
    let mut sender = Sender::new(0, payload.clone(), 5).unwrap();
    let mut sent: Vec<Vec<u8>> = Vec::new();
    for _ in 0..25 {
        assert_eq!(sender.step(SenderEvent::Tick), Some(SenderAction::Transmit));
        sent.push(sender.payload().clone());
        assert_eq!(
            sender.step(SenderEvent::WriteSucceeded),
            Some(SenderAction::Submit(Sample { bytes: 48, packets: 1 }))
        );
        assert_eq!(sender.step(SenderEvent::SampleSubmitted), Some(SenderAction::AwaitTick));
    }
    assert_eq!(sent.len(), 25);
    for bytes in &sent {
        assert_eq!(bytes, &payload);
    }
}

#[test]
fn write_failure_stops_the_sender_for_good() {
    let mut sender = Sender::new(1, vec![7; 4], 1).unwrap();
    sender.step(SenderEvent::Tick);
    assert_eq!(sender.step(SenderEvent::WriteFailed), Some(SenderAction::Stop));
    assert!(sender.is_stopped());
    for event in [
        SenderEvent::Tick,
        SenderEvent::WriteSucceeded,
        SenderEvent::WriteFailed,
        SenderEvent::SampleSubmitted,
    ] {
        assert_eq!(sender.step(event), None);
        assert!(sender.is_stopped());
    }
    assert_eq!(sender.payload(), &vec![7; 4]);
}

#[test]
fn unexpected_sender_events_are_ignored() {
    let mut sender = Sender::new(1, vec![7; 4], 1).unwrap();
    assert_eq!(sender.step(SenderEvent::WriteSucceeded), None);
    assert_eq!(sender.step(SenderEvent::WriteFailed), None);
    assert_eq!(sender.step(SenderEvent::SampleSubmitted), None);
    assert_eq!(sender.phase(), SenderPhase::AwaitingTick);
    sender.step(SenderEvent::Tick);
    assert_eq!(sender.step(SenderEvent::Tick), None);
    assert_eq!(sender.phase(), SenderPhase::Writing);
}

#[test]
fn failure_of_one_connection_leaves_the_others_alone() {
    let mut fleet: Vec<Sender> = (0..3)
        .map(|id| Sender::new(id, vec![id as u8; 8], 4).unwrap())
        .collect();
    for sender in fleet.iter_mut() {
        sender.step(SenderEvent::Tick);
    }
    assert_eq!(fleet[1].step(SenderEvent::WriteFailed), Some(SenderAction::Stop));
    for id in [0usize, 2] {
        assert_eq!(fleet[id].phase(), SenderPhase::Writing);
        assert_eq!(fleet[id].payload(), &vec![id as u8; 8]);
        assert_eq!(fleet[id].interval_nanos(), 250_000_000);
        assert_eq!(
            fleet[id].step(SenderEvent::WriteSucceeded),
            Some(SenderAction::Submit(Sample { bytes: 8, packets: 1 }))
        );
        assert_eq!(fleet[id].step(SenderEvent::SampleSubmitted), Some(SenderAction::AwaitTick));
        assert_eq!(fleet[id].step(SenderEvent::Tick), Some(SenderAction::Transmit));
    }
    assert!(fleet[1].is_stopped());
}
