//! What holds of every run of the orchestrator, whatever events arrive.

use vstd::prelude::*;
use crate::config::ConfigurationError;
use crate::manager::{Action, ConnectionPlan, Event, LaunchSettings, ManagerView, Phase};

verus! {

/// The state reached from `v` after `events`, fed in order.
pub open spec fn after(v: ManagerView, events: Seq<Event>) -> ManagerView
    decreases events.len(),
{
    if events.len() == 0 {
        v
    } else {
        after(v.step(events[0]).0, events.skip(1))
    }
}

/// The actions called for, in order, while `events` are fed to `v`.
pub open spec fn actions(v: ManagerView, events: Seq<Event>) -> Seq<Action>
    decreases events.len(),
{
    if events.len() == 0 {
        Seq::empty()
    } else {
        let rest = actions(v.step(events[0]).0, events.skip(1));
        match v.step(events[0]).1 {
            Some(action) => seq![action] + rest,
            None => rest,
        }
    }
}

/// The connections that are launched, in order, while `events` are fed to
/// `v`: the plans of the `Launch` actions among [`actions`].
pub open spec fn launches(v: ManagerView, events: Seq<Event>) -> Seq<ConnectionPlan>
    decreases events.len(),
{
    if events.len() == 0 {
        Seq::empty()
    } else {
        let rest = launches(v.step(events[0]).0, events.skip(1));
        match v.step(events[0]).1 {
            Some(Action::Launch(plan)) => seq![plan] + rest,
            _ => rest,
        }
    }
}

/// The local ports that the launched connections bind.
pub open spec fn ports_used(plans: Seq<ConnectionPlan>) -> Set<int> {
    Set::new(
        |port: int|
            exists|k: int| 0 <= k < plans.len() && (#[trigger] plans[k]).local_port == port,
    )
}

/// The `count` consecutive ports from `start` on.
pub open spec fn port_range(start: int, count: int) -> Set<int> {
    Set::new(|port: int| start <= port < start + count)
}

/// The id that the next launch will carry.
pub open spec fn next_id(v: ManagerView) -> nat {
    if v.phase == Phase::Launching {
        v.launched + 1
    } else {
        v.launched
    }
}

/// A phase in which no further connection is launched.
pub open spec fn launching_over(phase: Phase) -> bool {
    phase == Phase::Supervising || phase == Phase::Finished || phase == Phase::Rejected || phase
        == Phase::Aborted
}

/// Every transition keeps the state consistent and the settings unchanged.
pub proof fn lemma_step_consistent(v: ManagerView, event: Event)
    requires
        v.consistent(),
    ensures
        v.step(event).0.consistent(),
        v.step(event).0.settings == v.settings,
{
}

/// Every run keeps the state consistent and the settings unchanged.
pub proof fn lemma_run_consistent(v: ManagerView, events: Seq<Event>)
    requires
        v.consistent(),
    ensures
        after(v, events).consistent(),
        after(v, events).settings == v.settings,
    decreases events.len(),
{
    if events.len() > 0 {
        lemma_step_consistent(v, events[0]);
        lemma_run_consistent(v.step(events[0]).0, events.skip(1));
    }
}

/// Every state that a run reaches from the start is consistent: no more
/// senders run than connections were launched, and no more connections were
/// launched than are configured.
pub proof fn lemma_reachable_states_consistent(settings: LaunchSettings, events: Seq<Event>)
    ensures
        after(ManagerView::initial(settings), events).consistent(),
        after(ManagerView::initial(settings), events).settings == settings,
{
    lemma_run_consistent(ManagerView::initial(settings), events);
}

/// A configuration that asks for security without a CA certificate is
/// refused before anything is opened: whatever events arrive, the only action
/// ever called for is the rejection, at most once, so neither the aggregator
/// is started nor any connection launched.
pub proof fn lemma_unrunnable_opens_nothing(v: ManagerView, events: Seq<Event>)
    requires
        !v.settings.runnable(),
        v.phase == Phase::Idle || v.phase == Phase::Rejected,
    ensures
        forall|i: int|
            0 <= i < actions(v, events).len() ==> actions(v, events)[i] == Action::Reject(
                ConfigurationError::MissingCaFile,
            ),
        actions(v, events).len() <= 1,
        v.phase == Phase::Rejected ==> actions(v, events).len() == 0,
        launches(v, events).len() == 0,
        after(v, events).phase == Phase::Idle || after(v, events).phase == Phase::Rejected,
    decreases events.len(),
{
    if events.len() > 0 {
        lemma_unrunnable_opens_nothing(v.step(events[0]).0, events.skip(1));
    }
}

/// Once launching is over, no run launches another connection.
pub proof fn lemma_no_launch_after_launching(v: ManagerView, events: Seq<Event>)
    requires
        launching_over(v.phase),
    ensures
        launches(v, events).len() == 0,
        launching_over(after(v, events).phase),
        v.phase == Phase::Aborted ==> after(v, events).phase == Phase::Aborted,
        v.phase == Phase::Rejected ==> after(v, events).phase == Phase::Rejected,
    decreases events.len(),
{
    if events.len() > 0 {
        lemma_no_launch_after_launching(v.step(events[0]).0, events.skip(1));
    }
}

/// Connections are launched in sequence. From a consistent state, the `k`-th
/// launch of any run carries the `k`-th id from the next one on, with the
/// port that follows from it and the configured mode and payload length; no
/// more connections are launched than are configured; and when the run has
/// come to supervise its senders, every configured connection was launched.
pub proof fn lemma_launches_in_sequence(v: ManagerView, events: Seq<Event>)
    requires
        v.consistent(),
    ensures
        next_id(v) + launches(v, events).len() <= v.settings.connections,
        forall|k: int|
            0 <= k < launches(v, events).len() ==> {
                &&& #[trigger] launches(v, events)[k] == v.settings.plan_of((next_id(v) + k) as nat)
                &&& v.settings.port_of(next_id(v) + k) <= usize::MAX
            },
        (after(v, events).phase == Phase::Supervising || after(v, events).phase
            == Phase::Finished) ==> next_id(v) + launches(v, events).len()
            == v.settings.connections,
    decreases events.len(),
{
    if events.len() > 0 {
        let next = v.step(events[0]).0;
        let rest = launches(next, events.skip(1));
        lemma_step_consistent(v, events[0]);
        lemma_launches_in_sequence(next, events.skip(1));
        if launching_over(next.phase) {
            lemma_no_launch_after_launching(next, events.skip(1));
        }
        match v.step(events[0]).1 {
            Some(Action::Launch(plan)) => {
                assert(next_id(next) == next_id(v) + 1);
                assert forall|k: int| 0 <= k < launches(v, events).len() implies {
                    &&& #[trigger] launches(v, events)[k] == v.settings.plan_of(
                        (next_id(v) + k) as nat,
                    )
                    &&& v.settings.port_of(next_id(v) + k) <= usize::MAX
                } by {
                    if k > 0 {
                        assert(launches(v, events)[k] == rest[k - 1]);
                    }
                }
            },
            _ => {
                assert(launches(v, events) == rest);
            },
        }
    }
}

/// For `N` connections starting at port `P`, a run that has come to supervise
/// its senders has launched exactly `N` connections, on the ports `P`,
/// `P + 1`, ..., `P + N - 1` in this order: each port of that range is used by
/// exactly one connection, and no other port is used.
pub proof fn lemma_ports_exactly_the_range(settings: LaunchSettings, events: Seq<Event>)
    requires
        after(ManagerView::initial(settings), events).phase == Phase::Supervising || after(
            ManagerView::initial(settings),
            events,
        ).phase == Phase::Finished,
    ensures
        launches(ManagerView::initial(settings), events).len() == settings.connections,
        forall|k: int|
            0 <= k < settings.connections ==> {
                &&& (#[trigger] launches(ManagerView::initial(settings), events)[k]).id == k
                &&& launches(ManagerView::initial(settings), events)[k].local_port
                    == settings.start_port + k
            },
        forall|i: int, j: int|
            0 <= i < settings.connections && 0 <= j < settings.connections && i != j ==> (
            #[trigger] launches(ManagerView::initial(settings), events)[i]).local_port != (
            #[trigger] launches(ManagerView::initial(settings), events)[j]).local_port,
        ports_used(launches(ManagerView::initial(settings), events)) == port_range(
            settings.start_port as int,
            settings.connections as int,
        ),
{
    let v = ManagerView::initial(settings);
    let l = launches(v, events);
    if !settings.runnable() {
        lemma_unrunnable_opens_nothing(v, events);
    }
    lemma_launches_in_sequence(v, events);
    assert(l.len() == settings.connections);
    assert forall|port: int|
        port_range(settings.start_port as int, settings.connections as int).contains(
            port,
        ) implies #[trigger] ports_used(l).contains(port) by {
        let k = port - settings.start_port;
        assert(l[k].local_port == port);
    }
    assert(ports_used(l) =~= port_range(settings.start_port as int, settings.connections as int));
}

} // verus!
