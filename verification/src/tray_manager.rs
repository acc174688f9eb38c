//! The tray's part in running the application: what it shows of the engine,
//! and the switch of the active endpoint that its menu offers.
//!
//! The switch is a sequence of steps that the manager orders and the host
//! carries out: the endpoint is checked before anything is touched; a running
//! engine is stopped, the configuration is written anew, the endpoint is made
//! the active one, and the engine is started again if it ran before.

use crate::config::store::EndpointRow;
use crate::daemon::{DaemonEvent, DaemonModel};
use crate::endpoints::{
    active_count, count_with_id, lemma_switch_activates_target_only, switched,
};
use crate::tray::TrayState;
use vstd::prelude::*;

verus! {

/// Where a switch of the active endpoint stands.
#[derive(Clone, Copy, Debug, PartialEq, Eq, Structural)]
pub enum SwitchPhase {
    /// No switch is under way.
    Idle,
    /// The endpoint is being checked; the flag tells whether the engine ran
    /// when the switch was asked for.
    Checking(bool),
    /// The engine is being stopped.
    Stopping,
    /// The configuration is being written; the flag tells whether the engine
    /// is to be started again.
    Synthesizing(bool),
    /// The endpoint is being made the active one; the flag tells whether the
    /// engine is to be started again.
    Activating(bool),
    /// The engine is being started.
    Starting,
    /// The run state is being stored.
    Persisting,
}

/// What the manager is told during a switch.
#[derive(Clone, Copy, Debug, PartialEq, Eq, Structural)]
pub enum SwitchEvent {
    /// An endpoint was chosen in the menu; the flag tells whether the
    /// supervisor holds the engine.
    Requested(bool),
    /// Whether the endpoint belongs to the group that the user can reach.
    Checked(bool),
    /// Whether the supervisor holds the engine, after the ordered stop or
    /// start.
    EngineSettled(bool),
    /// Whether the configuration was synthesized and written.
    ConfigWritten(bool),
    /// The ordered step was carried out.
    StepDone,
}

/// What the host is to do next.
#[derive(Clone, Copy, Debug, PartialEq, Eq, Structural)]
pub enum SwitchAction {
    /// Check that the endpoint belongs to the user's group; report `Checked`.
    CheckEndpoint,
    /// Stop the engine; report `EngineSettled`.
    StopEngine,
    /// Synthesize the configuration of the endpoint and write it to the
    /// engine's file; report `ConfigWritten`.
    InjectConfig,
    /// Make the endpoint the active one and every other inactive; report
    /// `StepDone`.
    ActivateEndpoint,
    /// Start the engine; report `EngineSettled`.
    StartEngine,
    /// Store whether the engine runs; report `StepDone`.
    Persist(bool),
    /// The switch is over.
    Finish,
    /// The endpoint is not the user's: nothing was touched and nothing is to
    /// be done.
    Reject,
    /// The event was not expected; nothing is to be done.
    Nothing,
}

/// The phase after an event, and the action that answers it.
pub open spec fn switch_next(phase: SwitchPhase, event: SwitchEvent) -> (SwitchPhase, SwitchAction) {
    match (phase, event) {
        (SwitchPhase::Idle, SwitchEvent::Requested(held)) => (
            SwitchPhase::Checking(held),
            SwitchAction::CheckEndpoint,
        ),
        (SwitchPhase::Checking(ran), SwitchEvent::Checked(ok)) => if !ok {
            (SwitchPhase::Idle, SwitchAction::Reject)
        } else if ran {
            (SwitchPhase::Stopping, SwitchAction::StopEngine)
        } else {
            (SwitchPhase::Synthesizing(false), SwitchAction::InjectConfig)
        },
        (SwitchPhase::Stopping, SwitchEvent::EngineSettled(held)) => if held {
            (SwitchPhase::Persisting, SwitchAction::Persist(true))
        } else {
            (SwitchPhase::Synthesizing(true), SwitchAction::InjectConfig)
        },
        (SwitchPhase::Synthesizing(restart), SwitchEvent::ConfigWritten(ok)) => if ok {
            (SwitchPhase::Activating(restart), SwitchAction::ActivateEndpoint)
        } else {
            (SwitchPhase::Persisting, SwitchAction::Persist(false))
        },
        (SwitchPhase::Activating(restart), SwitchEvent::StepDone) => if restart {
            (SwitchPhase::Starting, SwitchAction::StartEngine)
        } else {
            (SwitchPhase::Persisting, SwitchAction::Persist(false))
        },
        (SwitchPhase::Starting, SwitchEvent::EngineSettled(held)) => (
            SwitchPhase::Persisting,
            SwitchAction::Persist(held),
        ),
        (SwitchPhase::Persisting, SwitchEvent::StepDone) => (
            SwitchPhase::Idle,
            SwitchAction::Finish,
        ),
        _ => (phase, SwitchAction::Nothing),
    }
}

/// The phase after a sequence of events.
pub open spec fn switch_after(phase: SwitchPhase, events: Seq<SwitchEvent>) -> SwitchPhase
    decreases events.len(),
{
    if events.len() == 0 {
        phase
    } else {
        switch_next(switch_after(phase, events.drop_last()), events.last()).0
    }
}

/// The actions that answer a sequence of events, in order.
pub open spec fn switch_actions(phase: SwitchPhase, events: Seq<SwitchEvent>) -> Seq<SwitchAction>
    decreases events.len(),
{
    if events.len() == 0 {
        Seq::empty()
    } else {
        switch_actions(phase, events.drop_last()).push(
            switch_next(switch_after(phase, events.drop_last()), events.last()).1,
        )
    }
}

/// Nothing is touched before the endpoint was checked: the engine is stopped
/// and the configuration is written only for an endpoint that passed the
/// check, the endpoint is made the active one only after its configuration
/// was written, and the engine is started only after that.
pub proof fn lemma_switch_steps_follow_the_check(phase: SwitchPhase, event: SwitchEvent)
    ensures
        switch_next(phase, event).1 == SwitchAction::StopEngine ==> phase == SwitchPhase::Checking(
            true,
        ) && event == SwitchEvent::Checked(true),
        switch_next(phase, event).1 == SwitchAction::InjectConfig ==> (phase
            == SwitchPhase::Checking(false) && event == SwitchEvent::Checked(true)) || (phase
            == SwitchPhase::Stopping && event == SwitchEvent::EngineSettled(false)),
        switch_next(phase, event).1 == SwitchAction::ActivateEndpoint ==> phase
            is Synthesizing && event == SwitchEvent::ConfigWritten(true),
        switch_next(phase, event).1 == SwitchAction::StartEngine ==> phase
            == SwitchPhase::Activating(true) && event == SwitchEvent::StepDone,
        switch_next(phase, event).1 == SwitchAction::Reject ==> phase is Checking && event
            == SwitchEvent::Checked(false) && switch_next(phase, event).0 == SwitchPhase::Idle,
{
}

/// What is stored at the end of a switch tells what the supervisor reported
/// after the last step that touched the engine.
pub proof fn lemma_switch_persists_reported_state(held: bool)
    ensures
        switch_next(SwitchPhase::Starting, SwitchEvent::EngineSettled(held)) == (
            SwitchPhase::Persisting,
            SwitchAction::Persist(held),
        ),
        switch_next(SwitchPhase::Stopping, SwitchEvent::EngineSettled(true)) == (
            SwitchPhase::Persisting,
            SwitchAction::Persist(true),
        ),
{
}

/// The events of a switch while the engine runs, every step of which
/// succeeds.
pub open spec fn running_switch_events() -> Seq<SwitchEvent> {
    seq![
        SwitchEvent::Requested(true),
        SwitchEvent::Checked(true),
        SwitchEvent::EngineSettled(false),
        SwitchEvent::ConfigWritten(true),
        SwitchEvent::StepDone,
        SwitchEvent::EngineSettled(true),
        SwitchEvent::StepDone,
    ]
}

/// What the supervisor is told during such a switch: the stop is asked for
/// and carried out, the start is asked for and gives a new process.
pub open spec fn running_switch_reports(new_pid: u32) -> Seq<DaemonEvent> {
    seq![
        DaemonEvent::StopRequested,
        DaemonEvent::Killed,
        DaemonEvent::StartRequested,
        DaemonEvent::Spawned(new_pid),
    ]
}

/// Switching the active endpoint while the engine runs, with every step
/// succeeding: the engine is stopped, the configuration is written anew, the
/// endpoint is made the active one, the engine is started, and the run state
/// stored tells that it runs. The supervisor ends up holding the new process;
/// one spawn was ordered and the old process was ended once. Of the
/// endpoints, those and only those with the chosen identifier are active;
/// where the identifier is in use once, exactly one endpoint is active, and
/// nothing else of any endpoint has changed.
pub proof fn lemma_endpoint_switch_while_running(
    old_pid: u32,
    new_pid: u32,
    before: Seq<EndpointRow>,
    after: Seq<EndpointRow>,
    target: Seq<char>,
)
    requires
        switched(before, after, target),
    ensures
        switch_actions(SwitchPhase::Idle, running_switch_events()) == seq![
            SwitchAction::CheckEndpoint,
            SwitchAction::StopEngine,
            SwitchAction::InjectConfig,
            SwitchAction::ActivateEndpoint,
            SwitchAction::StartEngine,
            SwitchAction::Persist(true),
            SwitchAction::Finish,
        ],
        switch_after(SwitchPhase::Idle, running_switch_events()) == SwitchPhase::Idle,
        DaemonModel::running(old_pid).after(running_switch_reports(new_pid)) == DaemonModel::running(
            new_pid,
        ),
        DaemonModel::running(old_pid).spawns(running_switch_reports(new_pid)) == 1,
        DaemonModel::running(old_pid).kills(running_switch_reports(new_pid), old_pid) == 1,
        old_pid != new_pid ==> DaemonModel::running(old_pid).kills(
            running_switch_reports(new_pid),
            new_pid,
        ) == 0,
        active_count(after) == count_with_id(before, target),
        count_with_id(before, target) == 1 ==> active_count(after) == 1,
        forall|i: int|
            0 <= i < after.len() ==> ((#[trigger] after[i]).active <==> before[i].endpoint_id@
                == target),
{
    lemma_switch_activates_target_only(before, after, target);
    let idle = SwitchPhase::Idle;
    let events = running_switch_events();
    let e0 = events.take(0);
    let e1 = events.take(1);
    let e2 = events.take(2);
    let e3 = events.take(3);
    let e4 = events.take(4);
    let e5 = events.take(5);
    let e6 = events.take(6);
    assert(e1.drop_last() =~= e0);
    assert(e2.drop_last() =~= e1);
    assert(e3.drop_last() =~= e2);
    assert(e4.drop_last() =~= e3);
    assert(e5.drop_last() =~= e4);
    assert(e6.drop_last() =~= e5);
    assert(events.drop_last() =~= e6);
    assert(switch_after(idle, e0) == idle);
    assert(switch_actions(idle, e0) =~= Seq::<SwitchAction>::empty());
    assert(e1.last() == SwitchEvent::Requested(true));
    assert(switch_after(idle, e1) == SwitchPhase::Checking(true));
    assert(e2.last() == SwitchEvent::Checked(true));
    assert(switch_after(idle, e2) == SwitchPhase::Stopping);
    assert(e3.last() == SwitchEvent::EngineSettled(false));
    assert(switch_after(idle, e3) == SwitchPhase::Synthesizing(true));
    assert(e4.last() == SwitchEvent::ConfigWritten(true));
    assert(switch_after(idle, e4) == SwitchPhase::Activating(true));
    assert(e5.last() == SwitchEvent::StepDone);
    assert(switch_after(idle, e5) == SwitchPhase::Starting);
    assert(e6.last() == SwitchEvent::EngineSettled(true));
    assert(switch_after(idle, e6) == SwitchPhase::Persisting);
    assert(events.last() == SwitchEvent::StepDone);
    assert(switch_actions(idle, e1) =~= seq![SwitchAction::CheckEndpoint]);
    assert(switch_actions(idle, e2) =~= seq![
        SwitchAction::CheckEndpoint,
        SwitchAction::StopEngine,
    ]);
    assert(switch_actions(idle, e3) =~= seq![
        SwitchAction::CheckEndpoint,
        SwitchAction::StopEngine,
        SwitchAction::InjectConfig,
    ]);
    assert(switch_actions(idle, e4) =~= seq![
        SwitchAction::CheckEndpoint,
        SwitchAction::StopEngine,
        SwitchAction::InjectConfig,
        SwitchAction::ActivateEndpoint,
    ]);
    assert(switch_actions(idle, e5) =~= seq![
        SwitchAction::CheckEndpoint,
        SwitchAction::StopEngine,
        SwitchAction::InjectConfig,
        SwitchAction::ActivateEndpoint,
        SwitchAction::StartEngine,
    ]);
    assert(switch_actions(idle, e6) =~= seq![
        SwitchAction::CheckEndpoint,
        SwitchAction::StopEngine,
        SwitchAction::InjectConfig,
        SwitchAction::ActivateEndpoint,
        SwitchAction::StartEngine,
        SwitchAction::Persist(true),
    ]);
    assert(switch_actions(idle, events) =~= seq![
        SwitchAction::CheckEndpoint,
        SwitchAction::StopEngine,
        SwitchAction::InjectConfig,
        SwitchAction::ActivateEndpoint,
        SwitchAction::StartEngine,
        SwitchAction::Persist(true),
        SwitchAction::Finish,
    ]);
    lemma_supervisor_during_switch(old_pid, new_pid);
}

proof fn lemma_supervisor_during_switch(old_pid: u32, new_pid: u32)
    ensures
        DaemonModel::running(old_pid).after(running_switch_reports(new_pid)) == DaemonModel::running(
            new_pid,
        ),
        DaemonModel::running(old_pid).spawns(running_switch_reports(new_pid)) == 1,
        DaemonModel::running(old_pid).kills(running_switch_reports(new_pid), old_pid) == 1,
        old_pid != new_pid ==> DaemonModel::running(old_pid).kills(
            running_switch_reports(new_pid),
            new_pid,
        ) == 0,
{
    let start = DaemonModel::running(old_pid);
    let reports = running_switch_reports(new_pid);
    let r0 = reports.take(0);
    let r1 = reports.take(1);
    let r2 = reports.take(2);
    let r3 = reports.take(3);
    assert(r1.drop_last() =~= r0);
    assert(r2.drop_last() =~= r1);
    assert(r3.drop_last() =~= r2);
    assert(reports.drop_last() =~= r3);
    assert(start.after(r0) == start);
    assert(start.spawns(r0) == 0);
    assert(start.kills(r0, old_pid) == 0);
    assert(start.kills(r0, new_pid) == 0);
    assert(r1.last() == DaemonEvent::StopRequested);
    assert(start.after(r1) == DaemonModel::at(crate::daemon::DaemonPhase::Stopping, Some(old_pid)));
    assert(start.spawns(r1) == 0);
    assert(start.kills(r1, old_pid) == 1);
    assert(r2.last() == DaemonEvent::Killed);
    assert(start.after(r2) == DaemonModel::stopped());
    assert(start.spawns(r2) == 0);
    assert(start.kills(r2, old_pid) == 1);
    assert(r3.last() == DaemonEvent::StartRequested);
    assert(start.after(r3) == DaemonModel::at(crate::daemon::DaemonPhase::Starting, None));
    assert(start.spawns(r3) == 1);
    assert(start.kills(r3, old_pid) == 1);
    assert(reports.last() == DaemonEvent::Spawned(new_pid));
    if old_pid != new_pid {
        assert(start.kills(r1, new_pid) == 0);
        assert(start.kills(r2, new_pid) == 0);
        assert(start.kills(r3, new_pid) == 0);
    }
}

/// The manager of the tray: what the tray shows of the engine, and the switch
/// of the active endpoint that is under way.
pub struct SystemTrayManager {
    tray_state: TrayState,
    switch: SwitchPhase,
}

impl SystemTrayManager {
    /// What the tray shows of the engine.
    pub closed spec fn shown(&self) -> TrayState {
        self.tray_state
    }

    /// Where the switch of the active endpoint stands.
    pub closed spec fn switching(&self) -> SwitchPhase {
        self.switch
    }

    /// A manager that shows the engine paused, with no switch under way.
    pub fn new() -> (manager: Self)
        ensures
            manager.shown() == TrayState::Paused,
            manager.switching() == SwitchPhase::Idle,
    {
        SystemTrayManager { tray_state: TrayState::Paused, switch: SwitchPhase::Idle }
    }

    /// What the tray shows of the engine.
    pub fn tray_state(&self) -> (state: TrayState)
        ensures
            state == self.shown(),
    {
        self.tray_state
    }

    /// Where the switch of the active endpoint stands.
    pub fn switch_phase(&self) -> (phase: SwitchPhase)
        ensures
            phase == self.switching(),
    {
        self.switch
    }

    /// Brings what the tray shows in line with the stored run state.
    pub fn tray_update(&mut self, service_running_state: i32)
        ensures
            final(self).shown() == (if service_running_state == 1 {
                TrayState::Running
            } else {
                TrayState::Paused
            }),
            final(self).switching() == old(self).switching(),
    {
        self.tray_state = TrayState::from_service_state(service_running_state);
    }

    /// Takes a report in and orders the next step of the switch of the
    /// active endpoint. When the run state is to be stored, the tray shows
    /// it from then on.
    pub fn switch_endpoint(&mut self, event: SwitchEvent) -> (action: SwitchAction)
        ensures
            (final(self).switching(), action) == switch_next(old(self).switching(), event),
            final(self).shown() == (match action {
                SwitchAction::Persist(true) => TrayState::Running,
                SwitchAction::Persist(false) => TrayState::Paused,
                _ => old(self).shown(),
            }),
    {
        let (phase, action) = match (self.switch, event) {
            (SwitchPhase::Idle, SwitchEvent::Requested(held)) => (
                SwitchPhase::Checking(held),
                SwitchAction::CheckEndpoint,
            ),
            (SwitchPhase::Checking(ran), SwitchEvent::Checked(ok)) => if !ok {
                (SwitchPhase::Idle, SwitchAction::Reject)
            } else if ran {
                (SwitchPhase::Stopping, SwitchAction::StopEngine)
            } else {
                (SwitchPhase::Synthesizing(false), SwitchAction::InjectConfig)
            },
            (SwitchPhase::Stopping, SwitchEvent::EngineSettled(held)) => if held {
                (SwitchPhase::Persisting, SwitchAction::Persist(true))
            } else {
                (SwitchPhase::Synthesizing(true), SwitchAction::InjectConfig)
            },
            (SwitchPhase::Synthesizing(restart), SwitchEvent::ConfigWritten(ok)) => if ok {
                (SwitchPhase::Activating(restart), SwitchAction::ActivateEndpoint)
            } else {
                (SwitchPhase::Persisting, SwitchAction::Persist(false))
            },
            (SwitchPhase::Activating(restart), SwitchEvent::StepDone) => if restart {
                (SwitchPhase::Starting, SwitchAction::StartEngine)
            } else {
                (SwitchPhase::Persisting, SwitchAction::Persist(false))
            },
            (SwitchPhase::Starting, SwitchEvent::EngineSettled(held)) => (
                SwitchPhase::Persisting,
                SwitchAction::Persist(held),
            ),
            (SwitchPhase::Persisting, SwitchEvent::StepDone) => (
                SwitchPhase::Idle,
                SwitchAction::Finish,
            ),
            (phase, _) => (phase, SwitchAction::Nothing),
        };
        self.switch = phase;
        match action {
            SwitchAction::Persist(held) => {
                self.tray_state = if held {
                    TrayState::Running
                } else {
                    TrayState::Paused
                };
            },
            _ => {},
        }
        action
    }
}

} // verus!
