//! Reconciliation at start-up, and the way down at exit.
//!
//! At start-up nothing found on the machine is trusted: engine processes of
//! an earlier session are ended and the system's proxy settings are cleared,
//! before the stored wishes of the logged-in user are looked at. The
//! reconciler decides the order; the host carries each step out and reports.

use crate::daemon::{stop_daemon, DaemonEvent, DaemonModel, DaemonState, Reply};
use crate::mode_laws::{
    is_target, lemma_unset_global_effect, lemma_unset_pac_effect,
};
use crate::mode_switch::{unset_global_plan, unset_global_proxy, unset_pac_plan, unset_pac_proxy};
use crate::os_proxy::{
    effect_on, lemma_effect_of_concatenation, models, ProxyCommand, ProxySettings,
};
use crate::pac_server::{PacServerShutdownHandle, StopOutcome};
use crate::platform::Platform;
use crate::text::strings;
use vstd::prelude::*;
use vstd::string::*;

verus! {

/// Where the reconciliation stands.
#[derive(Clone, Copy, Debug, PartialEq, Eq, Structural)]
pub enum ReconcilePhase {
    Idle,
    ClearingStray,
    ClearingPac,
    ClearingGlobal,
    LookingUpUser,
    ReadingAutoStart,
    StartingEngine,
    StoppingEngine,
    Persisting,
    Finished,
}

/// What the reconciler is told.
#[derive(Clone, Copy, Debug, PartialEq, Eq, Structural)]
pub enum ReconcileEvent {
    /// The process has started.
    Begin,
    /// The ordered step was carried out, or was tried and failed: a clean-up
    /// step that fails does not hold the reconciliation up.
    StepDone,
    /// Whether a user is logged in. Storage that cannot be reached counts as
    /// no user.
    UserLookedUp(bool),
    /// The user's auto-start preference, if it could be read.
    AutoStartRead(Option<bool>),
    /// Whether the supervisor holds the engine, after the ordered start or
    /// stop.
    EngineSettled(bool),
}

/// What the host is to do next.
#[derive(Clone, Copy, Debug, PartialEq, Eq, Structural)]
pub enum ReconcileAction {
    /// End engine processes left by an earlier session; report `StepDone`.
    ClearStrayEngines,
    /// Take the auto-config script away; report `StepDone`.
    ClearPacProxy,
    /// Take the fixed proxies away; report `StepDone`.
    ClearGlobalProxy,
    /// Look the logged-in user up; report `UserLookedUp`.
    LookUpUser,
    /// Read the user's auto-start preference; report `AutoStartRead`.
    ReadAutoStart,
    /// Synthesize the configuration of the active endpoint and start the
    /// engine; report `EngineSettled`.
    StartEngine,
    /// Make sure the engine is stopped; report `EngineSettled`.
    StopEngine,
    /// Store whether the engine runs, and manual as the proxy mode; report
    /// `StepDone`.
    Persist(bool),
    /// The reconciliation is over.
    Finish,
    /// The event was not expected; nothing is to be done.
    Nothing,
}

/// The phase after an event, and the action that answers it.
pub open spec fn reconcile_next(phase: ReconcilePhase, event: ReconcileEvent) -> (
    ReconcilePhase,
    ReconcileAction,
) {
    match (phase, event) {
        (ReconcilePhase::Idle, ReconcileEvent::Begin) => (
            ReconcilePhase::ClearingStray,
            ReconcileAction::ClearStrayEngines,
        ),
        (ReconcilePhase::ClearingStray, ReconcileEvent::StepDone) => (
            ReconcilePhase::ClearingPac,
            ReconcileAction::ClearPacProxy,
        ),
        (ReconcilePhase::ClearingPac, ReconcileEvent::StepDone) => (
            ReconcilePhase::ClearingGlobal,
            ReconcileAction::ClearGlobalProxy,
        ),
        (ReconcilePhase::ClearingGlobal, ReconcileEvent::StepDone) => (
            ReconcilePhase::LookingUpUser,
            ReconcileAction::LookUpUser,
        ),
        (ReconcilePhase::LookingUpUser, ReconcileEvent::UserLookedUp(found)) => if found {
            (ReconcilePhase::ReadingAutoStart, ReconcileAction::ReadAutoStart)
        } else {
            (ReconcilePhase::Finished, ReconcileAction::Finish)
        },
        (ReconcilePhase::ReadingAutoStart, ReconcileEvent::AutoStartRead(wish)) => if wish
            == Some(true) {
            (ReconcilePhase::StartingEngine, ReconcileAction::StartEngine)
        } else {
            (ReconcilePhase::StoppingEngine, ReconcileAction::StopEngine)
        },
        (ReconcilePhase::StartingEngine, ReconcileEvent::EngineSettled(running)) => (
            ReconcilePhase::Persisting,
            ReconcileAction::Persist(running),
        ),
        (ReconcilePhase::StoppingEngine, ReconcileEvent::EngineSettled(running)) => (
            ReconcilePhase::Persisting,
            ReconcileAction::Persist(running),
        ),
        (ReconcilePhase::Persisting, ReconcileEvent::StepDone) => (
            ReconcilePhase::Finished,
            ReconcileAction::Finish,
        ),
        _ => (phase, ReconcileAction::Nothing),
    }
}

/// The phase after a sequence of events.
pub open spec fn reconcile_after(phase: ReconcilePhase, events: Seq<ReconcileEvent>) -> ReconcilePhase
    decreases events.len(),
{
    if events.len() == 0 {
        phase
    } else {
        reconcile_next(reconcile_after(phase, events.drop_last()), events.last()).0
    }
}

/// The actions that answer a sequence of events, in order.
pub open spec fn reconcile_actions(phase: ReconcilePhase, events: Seq<ReconcileEvent>) -> Seq<
    ReconcileAction,
>
    decreases events.len(),
{
    if events.len() == 0 {
        Seq::empty()
    } else {
        reconcile_actions(phase, events.drop_last()).push(
            reconcile_next(reconcile_after(phase, events.drop_last()), events.last()).1,
        )
    }
}

/// How far a phase is into the reconciliation.
pub open spec fn progress(phase: ReconcilePhase) -> nat {
    match phase {
        ReconcilePhase::Idle => 0,
        ReconcilePhase::ClearingStray => 1,
        ReconcilePhase::ClearingPac => 2,
        ReconcilePhase::ClearingGlobal => 3,
        ReconcilePhase::LookingUpUser => 4,
        ReconcilePhase::ReadingAutoStart => 5,
        ReconcilePhase::StartingEngine => 6,
        ReconcilePhase::StoppingEngine => 6,
        ReconcilePhase::Persisting => 7,
        ReconcilePhase::Finished => 8,
    }
}

/// The reconciliation only moves forward, and an event that is answered with
/// an action moves it.
pub proof fn lemma_reconciliation_moves_forward(phase: ReconcilePhase, event: ReconcileEvent)
    ensures
        progress(reconcile_next(phase, event).0) >= progress(phase),
        reconcile_next(phase, event).1 != ReconcileAction::Nothing ==> progress(
            reconcile_next(phase, event).0,
        ) > progress(phase),
        reconcile_next(phase, event).1 == ReconcileAction::Nothing ==> reconcile_next(
            phase,
            event,
        ).0 == phase,
{
}

/// The engine is started only for a user who is logged in and wishes it, and
/// the user is looked up only after the system's proxy settings were cleared.
pub proof fn lemma_start_needs_user_and_wish(phase: ReconcilePhase, event: ReconcileEvent)
    ensures
        reconcile_next(phase, event).1 == ReconcileAction::StartEngine ==> phase
            == ReconcilePhase::ReadingAutoStart && event == ReconcileEvent::AutoStartRead(
            Some(true),
        ),
        reconcile_next(phase, event).1 == ReconcileAction::ReadAutoStart ==> phase
            == ReconcilePhase::LookingUpUser && event == ReconcileEvent::UserLookedUp(true),
        reconcile_next(phase, event).1 == ReconcileAction::LookUpUser ==> phase
            == ReconcilePhase::ClearingGlobal,
        reconcile_next(phase, event).1 == ReconcileAction::ClearGlobalProxy ==> phase
            == ReconcilePhase::ClearingPac,
        reconcile_next(phase, event).1 == ReconcileAction::ClearPacProxy ==> phase
            == ReconcilePhase::ClearingStray,
{
}

/// What is stored at the end tells what the supervisor reported.
pub proof fn lemma_persisted_state_is_reported_state(phase: ReconcilePhase, running: bool)
    requires
        phase == ReconcilePhase::StartingEngine || phase == ReconcilePhase::StoppingEngine,
    ensures
        reconcile_next(phase, ReconcileEvent::EngineSettled(running)) == (
            ReconcilePhase::Persisting,
            ReconcileAction::Persist(running),
        ),
{
}

/// The step that must have been ordered before a step is ordered: the
/// clean-up comes first, in its fixed order; the user is looked up after it;
/// the engine is touched only after the user's wish was read.
pub open spec fn preceding_step(action: ReconcileAction) -> Option<ReconcileAction> {
    match action {
        ReconcileAction::ClearPacProxy => Some(ReconcileAction::ClearStrayEngines),
        ReconcileAction::ClearGlobalProxy => Some(ReconcileAction::ClearPacProxy),
        ReconcileAction::LookUpUser => Some(ReconcileAction::ClearGlobalProxy),
        ReconcileAction::ReadAutoStart => Some(ReconcileAction::LookUpUser),
        ReconcileAction::StartEngine => Some(ReconcileAction::ReadAutoStart),
        ReconcileAction::StopEngine => Some(ReconcileAction::ReadAutoStart),
        ReconcileAction::Finish => Some(ReconcileAction::LookUpUser),
        _ => None,
    }
}

/// Every step of the sequence comes after the step that must precede it.
pub open spec fn in_order(actions: Seq<ReconcileAction>) -> bool {
    forall|k: int|
        0 <= k < actions.len() && preceding_step(#[trigger] actions[k]) is Some ==> exists|i: int|
            0 <= i < k && #[trigger] actions[i] == preceding_step(actions[k])->0
}

/// The steps that have certainly been ordered once a phase is reached.
pub open spec fn ordered_by(phase: ReconcilePhase, action: ReconcileAction) -> bool {
    match action {
        ReconcileAction::ClearStrayEngines => progress(phase) >= 1,
        ReconcileAction::ClearPacProxy => progress(phase) >= 2,
        ReconcileAction::ClearGlobalProxy => progress(phase) >= 3,
        ReconcileAction::LookUpUser => progress(phase) >= 4,
        ReconcileAction::ReadAutoStart => 5 <= progress(phase) <= 7,
        _ => false,
    }
}

/// Whatever is reported, and in whatever order, the reconciler orders its
/// steps in order: stray engines are cleared before the system's proxy
/// settings, the script before the fixed proxies, all of that before the user
/// is looked up, and the engine is started or stopped only after the user's
/// wish was read.
pub proof fn lemma_steps_are_ordered_in_order(events: Seq<ReconcileEvent>)
    ensures
        in_order(reconcile_actions(ReconcilePhase::Idle, events)),
        forall|a: ReconcileAction| #[trigger]
            ordered_by(reconcile_after(ReconcilePhase::Idle, events), a) ==> reconcile_actions(
                ReconcilePhase::Idle,
                events,
            ).contains(a),
    decreases events.len(),
{
    let idle = ReconcilePhase::Idle;
    if events.len() > 0 {
        let earlier = events.drop_last();
        lemma_steps_are_ordered_in_order(earlier);
        let before = reconcile_after(idle, earlier);
        let done = reconcile_actions(idle, earlier);
        let step = reconcile_next(before, events.last());
        let after = step.0;
        let actions = reconcile_actions(idle, events);
        assert(actions == done.push(step.1));
        assert forall|a: ReconcileAction| #[trigger] ordered_by(after, a) implies actions.contains(
            a,
        ) by {
            if ordered_by(before, a) {
                let i = choose|i: int| 0 <= i < done.len() && done[i] == a;
                assert(actions[i] == a);
            } else {
                assert(step.1 == a);
                assert(actions[done.len() as int] == a);
            }
        }
        assert forall|k: int|
            0 <= k < actions.len() && preceding_step(#[trigger] actions[k]) is Some implies exists|
            i: int,
        |
            0 <= i < k && #[trigger] actions[i] == preceding_step(actions[k])->0 by {
            if k < done.len() {
                assert(done[k] == actions[k]);
                let i = choose|i: int|
                    0 <= i < k && #[trigger] done[i] == preceding_step(done[k])->0;
                assert(actions[i] == done[i]);
            } else {
                let needed = preceding_step(step.1)->0;
                assert(ordered_by(before, needed));
                let i = choose|i: int| 0 <= i < done.len() && done[i] == needed;
                assert(actions[i] == needed);
            }
        }
    }
}

/// The events of a reconciliation that finds no user.
pub open spec fn no_user_events() -> Seq<ReconcileEvent> {
    seq![
        ReconcileEvent::Begin,
        ReconcileEvent::StepDone,
        ReconcileEvent::StepDone,
        ReconcileEvent::StepDone,
        ReconcileEvent::UserLookedUp(false),
    ]
}

/// The commands that clear the system's proxy settings at start-up: the
/// script is taken away, then the fixed proxies.
pub open spec fn clear_plan(platform: Platform, services: Seq<Seq<char>>) -> Seq<
    ProxyCommand<Seq<char>>,
> {
    unset_pac_plan(platform, services) + unset_global_plan(platform, services)
}

/// Clearing leaves the system in manual mode, whatever it held.
pub proof fn lemma_clear_gives_manual(
    platform: Platform,
    services: Seq<Seq<char>>,
    target: Option<Seq<char>>,
    s: ProxySettings,
)
    requires
        is_target(platform, services, target),
    ensures
        effect_on(clear_plan(platform, services), target, s).is_manual(),
{
    let first = unset_pac_plan(platform, services);
    let second = unset_global_plan(platform, services);
    lemma_effect_of_concatenation(first, second, target, s);
    lemma_unset_pac_effect(platform, services, target, s);
    lemma_unset_global_effect(platform, services, target, effect_on(first, target, s));
}

/// A reconciliation that finds no user ends after the clean-up: it orders
/// the stray engines cleared, the script and the fixed proxies taken away and
/// the user looked up, and finishes. It never orders the engine started, so
/// the supervisor stays at rest; and the system is left in manual mode.
pub proof fn lemma_no_user_leaves_clean_state(
    platform: Platform,
    services: Seq<Seq<char>>,
    target: Option<Seq<char>>,
    s: ProxySettings,
)
    requires
        is_target(platform, services, target),
    ensures
        reconcile_after(ReconcilePhase::Idle, no_user_events()) == ReconcilePhase::Finished,
        reconcile_actions(ReconcilePhase::Idle, no_user_events()) == seq![
            ReconcileAction::ClearStrayEngines,
            ReconcileAction::ClearPacProxy,
            ReconcileAction::ClearGlobalProxy,
            ReconcileAction::LookUpUser,
            ReconcileAction::Finish,
        ],
        !reconcile_actions(ReconcilePhase::Idle, no_user_events()).contains(
            ReconcileAction::StartEngine,
        ),
        DaemonModel::stopped().after(Seq::empty()) == DaemonModel::stopped(),
        effect_on(clear_plan(platform, services), target, s).is_manual(),
{
    let events = no_user_events();
    let idle = ReconcilePhase::Idle;
    let e0 = events.take(0);
    let e1 = events.take(1);
    let e2 = events.take(2);
    let e3 = events.take(3);
    let e4 = events.take(4);
    assert(e1.drop_last() =~= e0);
    assert(e2.drop_last() =~= e1);
    assert(e3.drop_last() =~= e2);
    assert(e4.drop_last() =~= e3);
    assert(events.drop_last() =~= e4);
    assert(reconcile_after(idle, e0) == idle);
    assert(reconcile_actions(idle, e0) =~= Seq::<ReconcileAction>::empty());
    assert(e1.last() == ReconcileEvent::Begin);
    assert(reconcile_after(idle, e1) == ReconcilePhase::ClearingStray);
    assert(e2.last() == ReconcileEvent::StepDone);
    assert(reconcile_after(idle, e2) == ReconcilePhase::ClearingPac);
    assert(e3.last() == ReconcileEvent::StepDone);
    assert(reconcile_after(idle, e3) == ReconcilePhase::ClearingGlobal);
    assert(e4.last() == ReconcileEvent::StepDone);
    assert(reconcile_after(idle, e4) == ReconcilePhase::LookingUpUser);
    assert(events.last() == ReconcileEvent::UserLookedUp(false));
    assert(reconcile_actions(idle, e1) =~= seq![ReconcileAction::ClearStrayEngines]);
    assert(reconcile_actions(idle, e2) =~= seq![
        ReconcileAction::ClearStrayEngines,
        ReconcileAction::ClearPacProxy,
    ]);
    assert(reconcile_actions(idle, e3) =~= seq![
        ReconcileAction::ClearStrayEngines,
        ReconcileAction::ClearPacProxy,
        ReconcileAction::ClearGlobalProxy,
    ]);
    assert(reconcile_actions(idle, e4) =~= seq![
        ReconcileAction::ClearStrayEngines,
        ReconcileAction::ClearPacProxy,
        ReconcileAction::ClearGlobalProxy,
        ReconcileAction::LookUpUser,
    ]);
    assert(reconcile_actions(idle, events) =~= seq![
        ReconcileAction::ClearStrayEngines,
        ReconcileAction::ClearPacProxy,
        ReconcileAction::ClearGlobalProxy,
        ReconcileAction::LookUpUser,
        ReconcileAction::Finish,
    ]);
    lemma_clear_gives_manual(platform, services, target, s);
}

/// The reconciliation of one process start.
pub struct Reconciler {
    phase: ReconcilePhase,
}

impl View for Reconciler {
    type V = ReconcilePhase;

    closed spec fn view(&self) -> ReconcilePhase {
        self.phase
    }
}

impl Reconciler {
    /// A reconciliation that has not begun.
    pub fn new() -> (reconciler: Self)
        ensures
            reconciler@ == ReconcilePhase::Idle,
    {
        Reconciler { phase: ReconcilePhase::Idle }
    }

    /// Where the reconciliation stands.
    pub fn phase(&self) -> (phase: ReconcilePhase)
        ensures
            phase == self@,
    {
        self.phase
    }

    /// Whether the reconciliation is over.
    pub fn is_finished(&self) -> (finished: bool)
        ensures
            finished == (self@ == ReconcilePhase::Finished),
    {
        match self.phase {
            ReconcilePhase::Finished => true,
            _ => false,
        }
    }
}

/// Takes a report in and orders the next step of the reconciliation.
pub fn reset_proxy_v2ray_status(reconciler: &mut Reconciler, event: ReconcileEvent) -> (action:
    ReconcileAction)
    ensures
        (final(reconciler)@, action) == reconcile_next(old(reconciler)@, event),
{
    let (phase, action) = match (reconciler.phase, event) {
        (ReconcilePhase::Idle, ReconcileEvent::Begin) => (
            ReconcilePhase::ClearingStray,
            ReconcileAction::ClearStrayEngines,
        ),
        (ReconcilePhase::ClearingStray, ReconcileEvent::StepDone) => (
            ReconcilePhase::ClearingPac,
            ReconcileAction::ClearPacProxy,
        ),
        (ReconcilePhase::ClearingPac, ReconcileEvent::StepDone) => (
            ReconcilePhase::ClearingGlobal,
            ReconcileAction::ClearGlobalProxy,
        ),
        (ReconcilePhase::ClearingGlobal, ReconcileEvent::StepDone) => (
            ReconcilePhase::LookingUpUser,
            ReconcileAction::LookUpUser,
        ),
        (ReconcilePhase::LookingUpUser, ReconcileEvent::UserLookedUp(found)) => if found {
            (ReconcilePhase::ReadingAutoStart, ReconcileAction::ReadAutoStart)
        } else {
            (ReconcilePhase::Finished, ReconcileAction::Finish)
        },
        (ReconcilePhase::ReadingAutoStart, ReconcileEvent::AutoStartRead(wish)) => {
            let wished = match wish {
                Some(w) => w,
                None => false,
            };
            if wished {
                (ReconcilePhase::StartingEngine, ReconcileAction::StartEngine)
            } else {
                (ReconcilePhase::StoppingEngine, ReconcileAction::StopEngine)
            }
        },
        (ReconcilePhase::StartingEngine, ReconcileEvent::EngineSettled(running)) => (
            ReconcilePhase::Persisting,
            ReconcileAction::Persist(running),
        ),
        (ReconcilePhase::StoppingEngine, ReconcileEvent::EngineSettled(running)) => (
            ReconcilePhase::Persisting,
            ReconcileAction::Persist(running),
        ),
        (ReconcilePhase::Persisting, ReconcileEvent::StepDone) => (
            ReconcilePhase::Finished,
            ReconcileAction::Finish,
        ),
        (phase, _) => (phase, ReconcileAction::Nothing),
    };
    reconciler.phase = phase;
    action
}

/// The auto-start preference that a stored flag stands for: set for 1, not
/// set for any other number, unknown where no flag could be read.
pub fn auto_start_wish(stored: Option<i32>) -> (wish: Option<bool>)
    ensures
        wish == (match stored {
            Some(flag) => Some(flag == 1),
            None => None,
        }),
{
    match stored {
        Some(flag) => Some(flag == 1),
        None => None,
    }
}

/// The run state to store for a supervisor: 1 while it holds the engine, 0
/// otherwise.
pub fn service_running_state(daemon: &DaemonState) -> (state: i32)
    ensures
        state == (if daemon@.child is Some {
            1i32
        } else {
            0i32
        }),
{
    if daemon.status() {
        1
    } else {
        0
    }
}

/// What the way down asks of the host.
pub struct Shutdown {
    /// What became of the PAC server.
    pub server: StopOutcome,
    /// The commands that clear the system's proxy settings.
    pub commands: Vec<ProxyCommand<String>>,
    /// The supervisor's answer to the stop request.
    pub daemon: Reply,
}

/// Clears the system's proxy settings: the PAC server is stopped, the script
/// and the fixed proxies are taken away.
pub fn clear_system_proxy(
    server: &mut PacServerShutdownHandle,
    platform: Platform,
    services: &Vec<String>,
) -> (result: (StopOutcome, Vec<ProxyCommand<String>>))
    ensures
        final(server).shutdown_tx is None,
        !final(server).starting,
        result.0 == StopOutcome::NotRunning <==> old(server).shutdown_tx is None,
        models(result.1@) == clear_plan(platform, strings(services@)),
{
    let (outcome, mut commands) = unset_pac_proxy(server, platform, services);
    let mut rest = unset_global_proxy(platform, services);
    let ghost a = models(commands@);
    let ghost b = models(rest@);
    commands.append(&mut rest);
    assert(models(commands@) =~= a + b);
    (outcome, commands)
}

/// Begins the way down before a restart or an exit: the system's proxy
/// settings are cleared and the engine is asked to stop.
pub fn graceful_restart(
    server: &mut PacServerShutdownHandle,
    daemon: &mut DaemonState,
    platform: Platform,
    services: &Vec<String>,
) -> (shutdown: Shutdown)
    ensures
        final(server).shutdown_tx is None,
        !final(server).starting,
        shutdown.server == StopOutcome::NotRunning <==> old(server).shutdown_tx is None,
        models(shutdown.commands@) == clear_plan(platform, strings(services@)),
        (final(daemon)@, shutdown.daemon) == old(daemon)@.next(DaemonEvent::StopRequested),
{
    let (outcome, commands) = clear_system_proxy(server, platform, services);
    let reply = stop_daemon(daemon);
    Shutdown { server: outcome, commands, daemon: reply }
}

} // verus!
