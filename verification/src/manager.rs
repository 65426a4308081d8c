//! The connection orchestrator: validates the configuration, launches the
//! connections one at a time with a pause after each, then supervises the
//! senders until the last one has ended.
//!
//! The orchestrator performs no I/O. It is a state machine: the caller reports
//! what happened as an [`Event`], and [`Manager::step`] answers with the next
//! [`Action`] to perform.

use vstd::prelude::*;
use crate::config::{ConfigurationError, Parameters, TransportMode};

verus! {

/// Where the orchestrator stands.
#[derive(Clone, Copy, Debug, PartialEq, Eq, Structural)]
pub enum Phase {
    /// Nothing has happened yet.
    Idle,
    /// The statistics aggregator is being started.
    Starting,
    /// A connection is being established.
    Launching,
    /// The stagger delay after a launch is running.
    Pausing,
    /// Every connection was launched; senders are being awaited.
    Supervising,
    /// Every sender has ended.
    Finished,
    /// The configuration was refused; nothing was opened.
    Rejected,
    /// A connection could not be set up; the run is abandoned.
    Aborted,
}

/// What the caller reports to the orchestrator.
#[derive(Clone, Copy, Debug, PartialEq, Eq, Structural)]
pub enum Event {
    /// The run is requested to start.
    Begin,
    /// The statistics aggregator is running.
    AggregatorReady,
    /// The connection was established and its sender started.
    Launched,
    /// The connection could not be established.
    LaunchFailed,
    /// The stagger delay has passed.
    PauseElapsed,
    /// One sender has ended.
    SenderEnded,
}

/// What one connection is launched with.
#[derive(Clone, Copy, Debug, PartialEq, Eq, Structural)]
pub struct ConnectionPlan {
    /// Position of the connection in the fleet, counted from zero.
    pub id: usize,
    /// Local port that the connection binds.
    pub local_port: usize,
    /// How the connection reaches the target.
    pub mode: TransportMode,
    /// Length in bytes of the payload to generate for it.
    pub payload_len: usize,
}

/// What the orchestrator asks the caller to do next.
#[derive(Clone, Copy, Debug, PartialEq, Eq, Structural)]
pub enum Action {
    /// Report the error and stop; nothing has been opened.
    Reject(ConfigurationError),
    /// Start the statistics aggregator with a channel of this capacity.
    StartAggregator { capacity: usize },
    /// Establish this connection and start its sender.
    Launch(ConnectionPlan),
    /// Wait this many milliseconds.
    Pause { millis: u64 },
    /// Wait for one sender to end.
    Supervise,
    /// Every sender has ended: return.
    Finish,
    /// Setup failed: abandon the run.
    Abort,
}

/// The part of the configuration that the orchestrator decides on.
#[derive(Clone, Copy, Debug, PartialEq, Eq, Structural)]
pub struct LaunchSettings {
    /// Transport mode of every connection.
    pub mode: TransportMode,
    /// Whether a CA certificate path is present.
    pub ca_present: bool,
    /// Number of connections to launch.
    pub connections: usize,
    /// Payload length of every connection.
    pub payload_len: usize,
    /// Local port of the first connection.
    pub start_port: usize,
    /// Stagger delay after each launch, in milliseconds.
    pub pause_millis: u64,
}

impl LaunchSettings {
    /// The settings are runnable unless security is asked for without a CA.
    pub open spec fn runnable(self) -> bool {
        self.mode.secure() ==> self.ca_present
    }

    /// Local port of connection `id`: ports are handed out in sequence.
    pub open spec fn port_of(self, id: int) -> int {
        self.start_port + id
    }

    /// The plan of connection `id`.
    pub open spec fn plan_of(self, id: nat) -> ConnectionPlan {
        ConnectionPlan {
            id: id as usize,
            local_port: self.port_of(id as int) as usize,
            mode: self.mode,
            payload_len: self.payload_len,
        }
    }

    /// The settings that a configuration gives.
    pub open spec fn of(params: &Parameters) -> LaunchSettings {
        LaunchSettings {
            mode: params.mode(),
            ca_present: params.ca_present(),
            connections: params.connections,
            payload_len: params.len,
            start_port: params.start_port,
            pause_millis: params.sleep,
        }
    }
}

/// The orchestrator's state as a mathematical value.
pub struct ManagerView {
    pub settings: LaunchSettings,
    pub phase: Phase,
    /// Connections launched so far; also the id of the next one.
    pub launched: nat,
    /// Senders started and not yet seen to end.
    pub running: nat,
}

impl ManagerView {
    /// The state before anything has happened.
    pub open spec fn initial(settings: LaunchSettings) -> ManagerView {
        ManagerView { settings, phase: Phase::Idle, launched: 0, running: 0 }
    }

    /// Consistency of the counters with the settings and the phase.
    pub open spec fn consistent(self) -> bool {
        &&& self.running <= self.launched <= self.settings.connections
        &&& self.phase == Phase::Launching ==> self.launched < self.settings.connections
        &&& self.phase == Phase::Launching ==> self.settings.port_of(self.launched as int)
            <= usize::MAX
        &&& self.phase == Phase::Supervising ==> self.running > 0
        &&& (self.phase == Phase::Supervising || self.phase == Phase::Finished) ==> self.launched
            == self.settings.connections
        &&& (self.phase == Phase::Idle || self.phase == Phase::Starting || self.phase
            == Phase::Rejected) ==> self.launched == 0
        &&& self.phase == Phase::Finished ==> self.running == 0
        &&& self.phase == Phase::Rejected ==> !self.settings.runnable()
        &&& (self.phase != Phase::Idle && self.phase != Phase::Rejected)
            ==> self.settings.runnable()
    }

    /// With every connection launched: await the senders, or finish when none
    /// is left running.
    pub open spec fn supervise_or_finish(self) -> (ManagerView, Option<Action>) {
        if self.running > 0 {
            (ManagerView { phase: Phase::Supervising, ..self }, Some(Action::Supervise))
        } else {
            (ManagerView { phase: Phase::Finished, ..self }, Some(Action::Finish))
        }
    }

    /// Launch the next connection if one is left, on the next port in
    /// sequence; abandon the run if that port does not exist.
    pub open spec fn launch_or_supervise(self) -> (ManagerView, Option<Action>) {
        if self.launched < self.settings.connections {
            if self.settings.port_of(self.launched as int) <= usize::MAX {
                (
                    ManagerView { phase: Phase::Launching, ..self },
                    Some(Action::Launch(self.settings.plan_of(self.launched))),
                )
            } else {
                (ManagerView { phase: Phase::Aborted, ..self }, Some(Action::Abort))
            }
        } else {
            self.supervise_or_finish()
        }
    }

    /// The transition function: the state after `event` and the action it
    /// calls for. An event that the phase does not expect changes nothing and
    /// calls for nothing.
    pub open spec fn step(self, event: Event) -> (ManagerView, Option<Action>) {
        match (self.phase, event) {
            (Phase::Idle, Event::Begin) => {
                if self.settings.runnable() {
                    (
                        ManagerView { phase: Phase::Starting, ..self },
                        Some(Action::StartAggregator { capacity: self.settings.connections }),
                    )
                } else {
                    (
                        ManagerView { phase: Phase::Rejected, ..self },
                        Some(Action::Reject(ConfigurationError::MissingCaFile)),
                    )
                }
            },
            (Phase::Starting, Event::AggregatorReady) => self.launch_or_supervise(),
            (Phase::Launching, Event::Launched) => (
                ManagerView {
                    phase: Phase::Pausing,
                    launched: self.launched + 1,
                    running: self.running + 1,
                    ..self
                },
                Some(Action::Pause { millis: self.settings.pause_millis }),
            ),
            (Phase::Launching, Event::LaunchFailed) => (
                ManagerView { phase: Phase::Aborted, ..self },
                Some(Action::Abort),
            ),
            (Phase::Pausing, Event::PauseElapsed) => self.launch_or_supervise(),
            (Phase::Supervising, Event::SenderEnded) => ManagerView {
                running: (self.running - 1) as nat,
                ..self
            }.supervise_or_finish(),
            _ => (self, None),
        }
    }
}

/// The connection orchestrator.
pub struct Manager {
    settings: LaunchSettings,
    phase: Phase,
    launched: usize,
    running: usize,
}

impl View for Manager {
    type V = ManagerView;

    closed spec fn view(&self) -> ManagerView {
        ManagerView {
            settings: self.settings,
            phase: self.phase,
            launched: self.launched as nat,
            running: self.running as nat,
        }
    }
}

impl Manager {
    #[verifier::type_invariant]
    spec fn well_formed(&self) -> bool {
        self@.consistent()
    }

    /// An orchestrator for `params`, before anything has happened.
    pub fn new(params: &Parameters) -> (manager: Manager)
        ensures
            manager@ == ManagerView::initial(LaunchSettings::of(params)),
    {
        let settings = LaunchSettings {
            mode: params.transport_mode(),
            ca_present: params.has_ca_file(),
            connections: params.connections,
            payload_len: params.len,
            start_port: params.start_port,
            pause_millis: params.sleep,
        };
        Manager { settings, phase: Phase::Idle, launched: 0, running: 0 }
    }

    /// The current phase.
    pub fn phase(&self) -> (phase: Phase)
        ensures
            phase == self@.phase,
    {
        self.phase
    }

    /// How many connections have been launched.
    pub fn launched(&self) -> (launched: usize)
        ensures
            launched == self@.launched,
            launched <= self@.settings.connections,
    {
        proof {
            use_type_invariant(self);
        }
        self.launched
    }

    /// How many senders were started and are not known to have ended.
    pub fn running(&self) -> (running: usize)
        ensures
            running == self@.running,
            running <= self@.launched,
    {
        proof {
            use_type_invariant(self);
        }
        self.running
    }

    /// The settings that the orchestrator decides on.
    pub fn settings(&self) -> (settings: LaunchSettings)
        ensures
            settings == self@.settings,
    {
        self.settings
    }

    /// True once the run is over: finished, rejected or aborted.
    pub fn is_over(&self) -> (over: bool)
        ensures
            over == (self@.phase == Phase::Finished || self@.phase == Phase::Rejected
                || self@.phase == Phase::Aborted),
    {
        match self.phase {
            Phase::Finished | Phase::Rejected | Phase::Aborted => true,
            _ => false,
        }
    }

    fn supervise_or_finish(&mut self) -> (action: Option<Action>)
        requires
            old(self)@.launched == old(self)@.settings.connections,
            old(self)@.running <= old(self)@.launched,
            old(self)@.settings.runnable(),
        ensures
            (final(self)@, action) == old(self)@.supervise_or_finish(),
    {
        if self.running > 0 {
            self.phase = Phase::Supervising;
            Some(Action::Supervise)
        } else {
            self.phase = Phase::Finished;
            Some(Action::Finish)
        }
    }

    fn launch_or_supervise(&mut self) -> (action: Option<Action>)
        requires
            old(self)@.running <= old(self)@.launched <= old(self)@.settings.connections,
            old(self)@.settings.runnable(),
        ensures
            (final(self)@, action) == old(self)@.launch_or_supervise(),
    {
        if self.launched < self.settings.connections {
            match self.settings.start_port.checked_add(self.launched) {
                Some(local_port) => {
                    self.phase = Phase::Launching;
                    Some(
                        Action::Launch(
                            ConnectionPlan {
                                id: self.launched,
                                local_port,
                                mode: self.settings.mode,
                                payload_len: self.settings.payload_len,
                            },
                        ),
                    )
                },
                None => {
                    self.phase = Phase::Aborted;
                    Some(Action::Abort)
                },
            }
        } else {
            self.supervise_or_finish()
        }
    }

    /// Takes in what happened and answers with what to do next.
    ///
    /// The new state and the action are exactly those of the transition
    /// function [`ManagerView::step`]; `None` means that the event was not
    /// expected in this phase and was ignored.
    pub fn step(&mut self, event: Event) -> (action: Option<Action>)
        ensures
            (final(self)@, action) == old(self)@.step(event),
    {
        proof {
            use_type_invariant(&*self);
        }
        match (self.phase, event) {
            (Phase::Idle, Event::Begin) => {
                if !self.settings.mode.is_secure() || self.settings.ca_present {
                    self.phase = Phase::Starting;
                    Some(Action::StartAggregator { capacity: self.settings.connections })
                } else {
                    self.phase = Phase::Rejected;
                    Some(Action::Reject(ConfigurationError::MissingCaFile))
                }
            },
            (Phase::Starting, Event::AggregatorReady) => self.launch_or_supervise(),
            (Phase::Launching, Event::Launched) => {
                self.phase = Phase::Pausing;
                self.launched = self.launched + 1;
                self.running = self.running + 1;
                Some(Action::Pause { millis: self.settings.pause_millis })
            },
            (Phase::Launching, Event::LaunchFailed) => {
                self.phase = Phase::Aborted;
                Some(Action::Abort)
            },
            (Phase::Pausing, Event::PauseElapsed) => self.launch_or_supervise(),
            (Phase::Supervising, Event::SenderEnded) => {
                if self.running > 1 {
                    self.running = self.running - 1;
                    Some(Action::Supervise)
                } else {
                    *self = Manager {
                        settings: self.settings,
                        phase: Phase::Finished,
                        launched: self.launched,
                        running: 0,
                    };
                    Some(Action::Finish)
                }
            },
            _ => None,
        }
    }
}

} // verus!
