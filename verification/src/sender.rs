//! The rate-limited sender of one connection.
//!
//! A sender owns the payload of its connection and repeats one cycle for as
//! long as the transport works: wait for the tick, write the payload, submit
//! a sample for it. A failed write ends the sender; nothing is retried.
//!
//! The sender performs no I/O. The caller reports what happened as a
//! [`SenderEvent`], and [`Sender::step`] answers with the next
//! [`SenderAction`].

use vstd::prelude::*;
use crate::pacing::{interval_nanos, paceable, send_interval_nanos};
use crate::statistics::Sample;

verus! {

/// Where a sender stands in its cycle.
#[derive(Clone, Copy, Debug, PartialEq, Eq, Structural)]
pub enum SenderPhase {
    /// Waiting for the next tick.
    AwaitingTick,
    /// The payload is being written to the channel.
    Writing,
    /// The sample of the last write is being submitted.
    Reporting,
    /// The transport failed; the sender has ended.
    Stopped,
}

/// What the caller reports to a sender.
#[derive(Clone, Copy, Debug, PartialEq, Eq, Structural)]
pub enum SenderEvent {
    /// The tick has come.
    Tick,
    /// The payload was written.
    WriteSucceeded,
    /// The write failed.
    WriteFailed,
    /// The aggregator's channel took the sample.
    SampleSubmitted,
}

/// What a sender asks the caller to do next.
#[derive(Clone, Copy, Debug, PartialEq, Eq, Structural)]
pub enum SenderAction {
    /// Write the sender's payload to the channel.
    Transmit,
    /// Submit this sample to the aggregator, waiting if its channel is full.
    Submit(Sample),
    /// Wait for the next tick.
    AwaitTick,
    /// End the task of this connection.
    Stop,
}

/// A sender's state as a mathematical value.
pub struct SenderView {
    /// The connection's id.
    pub id: nat,
    /// The bytes sent on every transmission.
    pub payload: Seq<u8>,
    /// Nanoseconds from one tick to the next.
    pub interval: nat,
    pub phase: SenderPhase,
}

impl SenderView {
    /// The sample of one transmission: the payload's length, one packet.
    pub open spec fn sample(self) -> Sample {
        Sample { bytes: self.payload.len() as usize, packets: 1 }
    }

    /// The transition function: the state after `event` and the action it
    /// calls for. An event that the phase does not expect changes nothing and
    /// calls for nothing.
    pub open spec fn step(self, event: SenderEvent) -> (SenderView, Option<SenderAction>) {
        match (self.phase, event) {
            (SenderPhase::AwaitingTick, SenderEvent::Tick) => (
                SenderView { phase: SenderPhase::Writing, ..self },
                Some(SenderAction::Transmit),
            ),
            (SenderPhase::Writing, SenderEvent::WriteSucceeded) => (
                SenderView { phase: SenderPhase::Reporting, ..self },
                Some(SenderAction::Submit(self.sample())),
            ),
            (SenderPhase::Writing, SenderEvent::WriteFailed) => (
                SenderView { phase: SenderPhase::Stopped, ..self },
                Some(SenderAction::Stop),
            ),
            (SenderPhase::Reporting, SenderEvent::SampleSubmitted) => (
                SenderView { phase: SenderPhase::AwaitingTick, ..self },
                Some(SenderAction::AwaitTick),
            ),
            _ => (self, None),
        }
    }
}

/// The rate-limited sender of one connection.
pub struct Sender {
    id: usize,
    payload: Vec<u8>,
    interval: u64,
    phase: SenderPhase,
}

impl View for Sender {
    type V = SenderView;

    closed spec fn view(&self) -> SenderView {
        SenderView {
            id: self.id as nat,
            payload: self.payload@,
            interval: self.interval as nat,
            phase: self.phase,
        }
    }
}

impl Sender {
    /// A sender for connection `id` that sends `payload` at `rate` packets
    /// per second, waiting for its first tick.
    ///
    /// `None` exactly when the rate cannot be paced: zero, or more than one
    /// packet per nanosecond.
    pub fn new(id: usize, payload: Vec<u8>, rate: usize) -> (sender: Option<Sender>)
        ensures
            paceable(rate as int) ==> sender.is_some() && sender.unwrap()@ == (SenderView {
                id: id as nat,
                payload: payload@,
                interval: interval_nanos(rate as int) as nat,
                phase: SenderPhase::AwaitingTick,
            }),
            !paceable(rate as int) ==> sender.is_none(),
    {
        match send_interval_nanos(rate) {
            Some(interval) => Some(
                Sender { id, payload, interval, phase: SenderPhase::AwaitingTick },
            ),
            None => None,
        }
    }

    /// The connection's id.
    pub fn id(&self) -> (id: usize)
        ensures
            id == self@.id,
    {
        self.id
    }

    /// The bytes to write on every transmission.
    pub fn payload(&self) -> (payload: &Vec<u8>)
        ensures
            payload@ == self@.payload,
    {
        &self.payload
    }

    /// Nanoseconds from one tick to the next.
    pub fn interval_nanos(&self) -> (interval: u64)
        ensures
            interval == self@.interval,
    {
        self.interval
    }

    /// Where the sender stands.
    pub fn phase(&self) -> (phase: SenderPhase)
        ensures
            phase == self@.phase,
    {
        self.phase
    }

    /// True once the sender has ended.
    pub fn is_stopped(&self) -> (stopped: bool)
        ensures
            stopped == (self@.phase == SenderPhase::Stopped),
    {
        match self.phase {
            SenderPhase::Stopped => true,
            _ => false,
        }
    }

    /// Takes in what happened and answers with what to do next.
    ///
    /// The new state and the action are exactly those of the transition
    /// function [`SenderView::step`]; `None` means that the event was not
    /// expected in this phase and was ignored. The payload, the id and the
    /// interval never change.
    pub fn step(&mut self, event: SenderEvent) -> (action: Option<SenderAction>)
        ensures
            (final(self)@, action) == old(self)@.step(event),
            final(self)@.payload == old(self)@.payload,
            final(self)@.interval == old(self)@.interval,
            final(self)@.id == old(self)@.id,
    {
        match (self.phase, event) {
            (SenderPhase::AwaitingTick, SenderEvent::Tick) => {
                self.phase = SenderPhase::Writing;
                Some(SenderAction::Transmit)
            },
            (SenderPhase::Writing, SenderEvent::WriteSucceeded) => {
                self.phase = SenderPhase::Reporting;
                Some(SenderAction::Submit(Sample { bytes: self.payload.len(), packets: 1 }))
            },
            (SenderPhase::Writing, SenderEvent::WriteFailed) => {
                self.phase = SenderPhase::Stopped;
                Some(SenderAction::Stop)
            },
            (SenderPhase::Reporting, SenderEvent::SampleSubmitted) => {
                self.phase = SenderPhase::AwaitingTick;
                Some(SenderAction::AwaitTick)
            },
            _ => None,
        }
    }
}

} // verus!
