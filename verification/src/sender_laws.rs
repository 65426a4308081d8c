//! What holds of every run of a sender, and of a fleet of senders.

use vstd::prelude::*;
use crate::sender::{SenderAction, SenderEvent, SenderPhase, SenderView};
use crate::statistics::Sample;

verus! {

/// The state reached from `v` after `events`, fed in order.
pub open spec fn after(v: SenderView, events: Seq<SenderEvent>) -> SenderView
    decreases events.len(),
{
    if events.len() == 0 {
        v
    } else {
        after(v, events.drop_last()).step(events.last()).0
    }
}

/// The bytes written to the channel, one entry per transmission, while
/// `events` are fed to `v`: at each `Transmit` the payload that the sender
/// holds at that moment.
pub open spec fn transmissions(v: SenderView, events: Seq<SenderEvent>) -> Seq<Seq<u8>>
    decreases events.len(),
{
    if events.len() == 0 {
        Seq::empty()
    } else {
        let before = after(v, events.drop_last());
        let earlier = transmissions(v, events.drop_last());
        if before.step(events.last()).1 == Some(SenderAction::Transmit) {
            earlier.push(before.step(events.last()).0.payload)
        } else {
            earlier
        }
    }
}

/// The samples submitted to the aggregator while `events` are fed to `v`.
pub open spec fn samples(v: SenderView, events: Seq<SenderEvent>) -> Seq<Sample>
    decreases events.len(),
{
    if events.len() == 0 {
        Seq::empty()
    } else {
        let earlier = samples(v, events.drop_last());
        match after(v, events.drop_last()).step(events.last()).1 {
            Some(SenderAction::Submit(sample)) => earlier.push(sample),
            _ => earlier,
        }
    }
}

/// How many writes succeeded among the events that the sender expected.
pub open spec fn successful_writes(v: SenderView, events: Seq<SenderEvent>) -> nat
    decreases events.len(),
{
    if events.len() == 0 {
        0
    } else if after(v, events.drop_last()).phase == SenderPhase::Writing && events.last()
        == SenderEvent::WriteSucceeded {
        successful_writes(v, events.drop_last()) + 1
    } else {
        successful_writes(v, events.drop_last())
    }
}

/// A sender's payload, id and interval are the same after any run.
pub proof fn lemma_payload_never_changes(v: SenderView, events: Seq<SenderEvent>)
    ensures
        after(v, events).payload == v.payload,
        after(v, events).interval == v.interval,
        after(v, events).id == v.id,
    decreases events.len(),
{
    if events.len() > 0 {
        lemma_payload_never_changes(v, events.drop_last());
    }
}

/// A connection's payload bytes are identical across every transmission it
/// performs: each one writes the payload that the sender was created with.
pub proof fn lemma_transmissions_identical(v: SenderView, events: Seq<SenderEvent>)
    ensures
        forall|k: int|
            0 <= k < transmissions(v, events).len() ==> #[trigger] transmissions(v, events)[k]
                == v.payload,
    decreases events.len(),
{
    if events.len() > 0 {
        let earlier = transmissions(v, events.drop_last());
        lemma_transmissions_identical(v, events.drop_last());
        lemma_payload_never_changes(v, events.drop_last());
        assert forall|k: int| 0 <= k < transmissions(v, events).len() implies #[trigger] transmissions(
            v,
            events,
        )[k] == v.payload by {
            if k < earlier.len() {
                assert(transmissions(v, events)[k] == earlier[k]);
            }
        }
    }
}

/// One sample is submitted for each successful write, none otherwise, and
/// each sample counts the payload's length and one packet.
pub proof fn lemma_one_sample_per_write(v: SenderView, events: Seq<SenderEvent>)
    ensures
        samples(v, events).len() == successful_writes(v, events),
        forall|k: int|
            0 <= k < samples(v, events).len() ==> #[trigger] samples(v, events)[k] == v.sample(),
    decreases events.len(),
{
    if events.len() > 0 {
        let earlier = samples(v, events.drop_last());
        lemma_one_sample_per_write(v, events.drop_last());
        lemma_payload_never_changes(v, events.drop_last());
        assert forall|k: int| 0 <= k < samples(v, events).len() implies #[trigger] samples(
            v,
            events,
        )[k] == v.sample() by {
            if k < earlier.len() {
                assert(samples(v, events)[k] == earlier[k]);
            }
        }
    }
}

/// A sender that has stopped stays stopped: no event moves it, nothing is
/// transmitted and no sample is submitted any more.
pub proof fn lemma_stopped_is_final(v: SenderView, events: Seq<SenderEvent>)
    requires
        v.phase == SenderPhase::Stopped,
    ensures
        after(v, events) == v,
        transmissions(v, events).len() == 0,
        samples(v, events).len() == 0,
    decreases events.len(),
{
    if events.len() > 0 {
        lemma_stopped_is_final(v, events.drop_last());
    }
}

/// A sender stops only on a failed write of its own: a run without one
/// leaves a running sender running.
pub proof fn lemma_stops_only_on_failure(v: SenderView, events: Seq<SenderEvent>)
    requires
        v.phase != SenderPhase::Stopped,
        forall|k: int| 0 <= k < events.len() ==> events[k] != SenderEvent::WriteFailed,
    ensures
        after(v, events).phase != SenderPhase::Stopped,
    decreases events.len(),
{
    if events.len() > 0 {
        lemma_stops_only_on_failure(v, events.drop_last());
    }
}

/// An event addressed to one connection of a fleet.
pub struct Delivery {
    /// Position of the connection in the fleet.
    pub target: int,
    pub event: SenderEvent,
}

/// The fleet after one delivery: the addressed sender takes its step. A
/// delivery to no connection of the fleet changes nothing.
pub open spec fn deliver(fleet: Seq<SenderView>, delivery: Delivery) -> Seq<SenderView> {
    if 0 <= delivery.target < fleet.len() {
        fleet.update(delivery.target, fleet[delivery.target].step(delivery.event).0)
    } else {
        fleet
    }
}

/// The fleet after `deliveries`, made in order.
pub open spec fn fleet_after(fleet: Seq<SenderView>, deliveries: Seq<Delivery>) -> Seq<SenderView>
    decreases deliveries.len(),
{
    if deliveries.len() == 0 {
        fleet
    } else {
        deliver(fleet_after(fleet, deliveries.drop_last()), deliveries.last())
    }
}

/// The events among `deliveries` that are addressed to connection `j`.
pub open spec fn addressed_to(deliveries: Seq<Delivery>, j: int) -> Seq<SenderEvent>
    decreases deliveries.len(),
{
    if deliveries.len() == 0 {
        Seq::empty()
    } else if deliveries.last().target == j {
        addressed_to(deliveries.drop_last(), j).push(deliveries.last().event)
    } else {
        addressed_to(deliveries.drop_last(), j)
    }
}

/// Connections are isolated from each other. However the events of a fleet
/// interleave, the state of connection `j` is the one that its own events
/// alone lead to: what happens to another connection, a transport failure
/// included, alters neither its payload, nor its pacing, nor whether it
/// still runs.
pub proof fn lemma_connections_isolated(fleet: Seq<SenderView>, deliveries: Seq<Delivery>, j: int)
    requires
        0 <= j < fleet.len(),
    ensures
        fleet_after(fleet, deliveries).len() == fleet.len(),
        fleet_after(fleet, deliveries)[j] == after(fleet[j], addressed_to(deliveries, j)),
    decreases deliveries.len(),
{
    if deliveries.len() > 0 {
        lemma_connections_isolated(fleet, deliveries.drop_last(), j);
        if deliveries.last().target == j {
            let own = addressed_to(deliveries, j);
            assert(own.drop_last() =~= addressed_to(deliveries.drop_last(), j));
        }
    }
}

/// A transport failure on connection `i` leaves every other connection `j`
/// exactly as it was.
pub proof fn lemma_failure_is_local(fleet: Seq<SenderView>, i: int, j: int)
    requires
        0 <= i < fleet.len(),
        0 <= j < fleet.len(),
        i != j,
    ensures
        deliver(fleet, Delivery { target: i, event: SenderEvent::WriteFailed })[j] == fleet[j],
        fleet[i].phase == SenderPhase::Writing ==> deliver(
            fleet,
            Delivery { target: i, event: SenderEvent::WriteFailed },
        )[i].phase == SenderPhase::Stopped,
{
}

} // verus!
