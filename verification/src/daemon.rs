//! The supervisor of the engine process, as a state machine.
//!
//! The supervisor decides; the host acts. A request or a report goes in as a
//! `DaemonEvent`; what comes back is either an action for the host to carry
//! out and report on, or the end of the operation. The host keeps the
//! supervisor behind a lock for the whole of an operation, so that requests
//! are served one after the other.

use crate::text::strings;
use vstd::prelude::*;
use vstd::string::*;

verus! {

/// Where the supervisor stands.
#[derive(Clone, Copy, Debug, PartialEq, Eq, Structural)]
pub enum DaemonPhase {
    /// No child is held.
    Stopped,
    /// A spawn was ordered and its report is awaited.
    Starting,
    /// A child is held.
    Running,
    /// The child's termination was ordered and its report is awaited.
    Stopping,
    /// The supervisor was torn down; it serves no more requests.
    Closed,
}

/// What the supervisor is told.
#[derive(Clone, Copy, Debug, PartialEq, Eq, Structural)]
pub enum DaemonEvent {
    /// The engine is to run.
    StartRequested,
    /// The ordered spawn gave a process.
    Spawned(u32),
    /// The ordered spawn failed.
    SpawnFailed,
    /// The engine is to stop.
    StopRequested,
    /// The ordered termination was carried out.
    Killed,
    /// The ordered termination failed.
    KillFailed,
    /// A process ended by itself, with its exit code if it has one.
    Exited(u32, Option<i32>),
    /// The engine wrote a line on its error channel.
    ErrorLine,
    /// The owner of the supervisor goes away.
    Teardown,
}

/// What the host is to do.
#[derive(Clone, Copy, Debug, PartialEq, Eq, Structural)]
pub enum DaemonAction {
    /// Spawn the engine, then report `Spawned` or `SpawnFailed`.
    Spawn,
    /// Terminate the process, then report `Killed` or `KillFailed`.
    Kill(u32),
    /// Terminate the process; no report is wanted.
    Discard(u32),
}

/// Why an operation of the supervisor failed.
#[derive(Clone, Copy, Debug, PartialEq, Eq, Structural)]
pub enum ProcessError {
    /// The engine could not be spawned.
    SpawnFailed,
    /// The child could not be terminated; it is no longer held all the same.
    TerminationFailed,
    /// Another operation is under way.
    Busy,
    /// The supervisor was torn down.
    Closed,
}

/// The answer to an event.
#[derive(Clone, Copy, Debug, PartialEq, Eq, Structural)]
pub enum Reply {
    /// The host carries out the action.
    Do(DaemonAction),
    /// The operation is over and succeeded.
    Done,
    /// The operation is over and failed.
    Failed(ProcessError),
    /// The event changes nothing and asks for nothing.
    Ignored,
}

/// The supervisor as a mathematical value.
#[derive(Clone, Copy, Debug, PartialEq, Eq, Structural)]
pub struct DaemonModel {
    pub phase: DaemonPhase,
    /// The process held, by its identifier.
    pub child: Option<u32>,
}

impl DaemonModel {
    /// A child is held exactly while running or stopping.
    pub open spec fn well_formed(self) -> bool {
        self.child is Some <==> (self.phase == DaemonPhase::Running || self.phase
            == DaemonPhase::Stopping)
    }

    /// The supervisor with the given phase and child.
    pub open spec fn at(phase: DaemonPhase, child: Option<u32>) -> DaemonModel {
        DaemonModel { phase, child }
    }

    /// The supervisor at rest.
    pub open spec fn stopped() -> DaemonModel {
        DaemonModel::at(DaemonPhase::Stopped, None)
    }

    /// The supervisor holding `pid`.
    pub open spec fn running(pid: u32) -> DaemonModel {
        DaemonModel::at(DaemonPhase::Running, Some(pid))
    }

    /// The state after an event, and the answer to it.
    pub open spec fn next(self, event: DaemonEvent) -> (DaemonModel, Reply) {
        match event {
            DaemonEvent::StartRequested => match self.phase {
                DaemonPhase::Stopped => (
                    DaemonModel::at(DaemonPhase::Starting, None),
                    Reply::Do(DaemonAction::Spawn),
                ),
                DaemonPhase::Running => (self, Reply::Done),
                DaemonPhase::Closed => (self, Reply::Failed(ProcessError::Closed)),
                _ => (self, Reply::Failed(ProcessError::Busy)),
            },
            DaemonEvent::Spawned(pid) => match self.phase {
                DaemonPhase::Starting => (DaemonModel::running(pid), Reply::Done),
                _ => if self.child == Some(pid) {
                    (self, Reply::Ignored)
                } else {
                    (self, Reply::Do(DaemonAction::Discard(pid)))
                },
            },
            DaemonEvent::SpawnFailed => match self.phase {
                DaemonPhase::Starting => (
                    DaemonModel::stopped(),
                    Reply::Failed(ProcessError::SpawnFailed),
                ),
                _ => (self, Reply::Ignored),
            },
            DaemonEvent::StopRequested => match self.phase {
                DaemonPhase::Stopped => (self, Reply::Done),
                DaemonPhase::Running => (
                    DaemonModel::at(DaemonPhase::Stopping, self.child),
                    Reply::Do(DaemonAction::Kill(self.child->0)),
                ),
                DaemonPhase::Closed => (self, Reply::Failed(ProcessError::Closed)),
                _ => (self, Reply::Failed(ProcessError::Busy)),
            },
            DaemonEvent::Killed => match self.phase {
                DaemonPhase::Stopping => (DaemonModel::stopped(), Reply::Done),
                _ => (self, Reply::Ignored),
            },
            DaemonEvent::KillFailed => match self.phase {
                DaemonPhase::Stopping => (
                    DaemonModel::stopped(),
                    Reply::Failed(ProcessError::TerminationFailed),
                ),
                _ => (self, Reply::Ignored),
            },
            DaemonEvent::Exited(pid, _) => if self.phase == DaemonPhase::Running && self.child
                == Some(pid) {
                (DaemonModel::stopped(), Reply::Ignored)
            } else {
                (self, Reply::Ignored)
            },
            DaemonEvent::ErrorLine => (self, Reply::Ignored),
            DaemonEvent::Teardown => match self.child {
                Some(pid) => (
                    DaemonModel::at(DaemonPhase::Closed, None),
                    Reply::Do(DaemonAction::Discard(pid)),
                ),
                None => (DaemonModel::at(DaemonPhase::Closed, None), Reply::Ignored),
            },
        }
    }

    /// The state after a sequence of events.
    pub open spec fn after(self, events: Seq<DaemonEvent>) -> DaemonModel
        decreases events.len(),
    {
        if events.len() == 0 {
            self
        } else {
            self.after(events.drop_last()).next(events.last()).0
        }
    }

    /// How many spawns a sequence of events orders.
    pub open spec fn spawns(self, events: Seq<DaemonEvent>) -> nat
        decreases events.len(),
    {
        if events.len() == 0 {
            0
        } else {
            let before = self.spawns(events.drop_last());
            if self.after(events.drop_last()).next(events.last()).1 == Reply::Do(
                DaemonAction::Spawn,
            ) {
                before + 1
            } else {
                before
            }
        }
    }

    /// How many terminations of `pid` a sequence of events orders.
    pub open spec fn kills(self, events: Seq<DaemonEvent>, pid: u32) -> nat
        decreases events.len(),
    {
        if events.len() == 0 {
            0
        } else {
            let before = self.kills(events.drop_last(), pid);
            let reply = self.after(events.drop_last()).next(events.last()).1;
            if reply == Reply::Do(DaemonAction::Kill(pid)) || reply == Reply::Do(
                DaemonAction::Discard(pid),
            ) {
                before + 1
            } else {
                before
            }
        }
    }
}

/// Every event leaves the supervisor well formed: it never holds a child
/// outside `Running` and `Stopping`, and always holds one there.
pub proof fn lemma_next_keeps_well_formed(state: DaemonModel, event: DaemonEvent)
    requires
        state.well_formed(),
    ensures
        state.next(event).0.well_formed(),
{
}

/// Whatever is reported, and in whatever order, a supervisor that began at
/// rest is well formed.
pub proof fn lemma_always_well_formed(events: Seq<DaemonEvent>)
    ensures
        DaemonModel::stopped().after(events).well_formed(),
    decreases events.len(),
{
    if events.len() > 0 {
        lemma_always_well_formed(events.drop_last());
        lemma_next_keeps_well_formed(
            DaemonModel::stopped().after(events.drop_last()),
            events.last(),
        );
    }
}

/// A spawn is ordered only at rest, and the supervisor then leaves rest: as
/// long as no report arrives, no second spawn is ordered.
pub proof fn lemma_spawn_only_when_stopped(state: DaemonModel, event: DaemonEvent)
    requires
        state.well_formed(),
        state.next(event).1 == Reply::Do(DaemonAction::Spawn),
    ensures
        event == DaemonEvent::StartRequested,
        state.phase == DaemonPhase::Stopped,
        state.child is None,
        state.next(event).0.phase == DaemonPhase::Starting,
{
}

/// Starting is idempotent: a start request while running succeeds, changes
/// nothing and orders nothing.
pub proof fn lemma_start_while_running_is_noop(state: DaemonModel)
    requires
        state.phase == DaemonPhase::Running,
    ensures
        state.next(DaemonEvent::StartRequested) == (state, Reply::Done),
{
}

/// Stopping is idempotent: a stop request at rest succeeds, changes nothing
/// and orders nothing.
pub proof fn lemma_stop_while_stopped_is_noop(state: DaemonModel)
    requires
        state.phase == DaemonPhase::Stopped,
    ensures
        state.next(DaemonEvent::StopRequested) == (state, Reply::Done),
{
}

/// Two starts in a row, the first one's spawn giving `pid`, end in `Running`
/// with that child, and order exactly one spawn.
pub proof fn lemma_two_starts_spawn_once(pid: u32)
    ensures
        ({
            let events = seq![
                DaemonEvent::StartRequested,
                DaemonEvent::Spawned(pid),
                DaemonEvent::StartRequested,
            ];
            &&& DaemonModel::stopped().after(events) == DaemonModel::running(pid)
            &&& DaemonModel::stopped().after(events.take(2)) == DaemonModel::running(pid)
            &&& DaemonModel::stopped().spawns(events) == 1
        }),
{
    let events = seq![
        DaemonEvent::StartRequested,
        DaemonEvent::Spawned(pid),
        DaemonEvent::StartRequested,
    ];
    let start = DaemonModel::stopped();
    let e0 = events.take(0);
    let e1 = events.take(1);
    let e2 = events.take(2);
    assert(e1.drop_last() =~= e0);
    assert(e2.drop_last() =~= e1);
    assert(events.drop_last() =~= e2);
    assert(start.after(e0) == start);
    assert(start.spawns(e0) == 0);
    assert(e1.last() == DaemonEvent::StartRequested);
    assert(start.after(e1) == DaemonModel::at(DaemonPhase::Starting, None));
    assert(start.spawns(e1) == 1);
    assert(e2.last() == DaemonEvent::Spawned(pid));
    assert(start.after(e2) == DaemonModel::running(pid));
    assert(start.spawns(e2) == 1);
    assert(events.last() == DaemonEvent::StartRequested);
}

/// Tearing the supervisor down while it holds a child orders that child's
/// termination, once, and leaves the supervisor closed and empty-handed.
pub proof fn lemma_teardown_terminates_child(state: DaemonModel, pid: u32)
    requires
        state.well_formed(),
        state.child == Some(pid),
    ensures
        state.next(DaemonEvent::Teardown) == (
            DaemonModel::at(DaemonPhase::Closed, None),
            Reply::Do(DaemonAction::Discard(pid)),
        ),
        state.kills(seq![DaemonEvent::Teardown], pid) == 1,
{
    let events = seq![DaemonEvent::Teardown];
    assert(events.drop_last() =~= Seq::<DaemonEvent>::empty());
    assert(state.after(events.drop_last()) == state);
    assert(state.kills(events.drop_last(), pid) == 0);
}

/// Once closed, the supervisor never holds a child again, and a process
/// reported to it is sent away.
pub proof fn lemma_closed_stays_closed(state: DaemonModel, event: DaemonEvent)
    requires
        state.phase == DaemonPhase::Closed,
        state.child is None,
    ensures
        state.next(event).0 == state,
        event matches DaemonEvent::Spawned(pid) ==> state.next(event).1 == Reply::Do(
            DaemonAction::Discard(pid),
        ),
{
}

/// After any operation ends, whether a child is held tells whether the
/// engine runs: a finished operation leaves the supervisor at rest, running
/// or closed, never in between.
pub proof fn lemma_finished_operation_is_settled(state: DaemonModel, event: DaemonEvent)
    requires
        state.well_formed(),
        state.next(event).1 == Reply::Done || (state.next(event).1 matches Reply::Failed(e) && e
            != ProcessError::Busy),
    ensures
        ({
            let after = state.next(event).0;
            after.phase == DaemonPhase::Stopped || after.phase == DaemonPhase::Running
                || after.phase == DaemonPhase::Closed
        }),
        state.next(event).0.child is Some <==> state.next(event).0.phase == DaemonPhase::Running,
{
}

/// The handle to at most one running engine process.
pub struct DaemonState {
    model: DaemonModel,
}

impl View for DaemonState {
    type V = DaemonModel;

    closed spec fn view(&self) -> DaemonModel {
        self.model
    }
}

impl DaemonState {
    #[verifier::type_invariant]
    spec fn valid(self) -> bool {
        self.model.well_formed()
    }

    /// A supervisor at rest.
    pub fn new() -> (state: Self)
        ensures
            state@ == DaemonModel::stopped(),
    {
        DaemonState { model: DaemonModel { phase: DaemonPhase::Stopped, child: None } }
    }

    /// Where the supervisor stands.
    pub fn phase(&self) -> (phase: DaemonPhase)
        ensures
            phase == self@.phase,
            self@.well_formed(),
    {
        proof {
            use_type_invariant(self);
        }
        self.model.phase
    }

    /// The process held, if any.
    pub fn child(&self) -> (child: Option<u32>)
        ensures
            child == self@.child,
    {
        self.model.child
    }

    /// Whether a child is held.
    pub fn status(&self) -> (held: bool)
        ensures
            held == self@.child is Some,
            held == (self@.phase == DaemonPhase::Running || self@.phase == DaemonPhase::Stopping),
    {
        proof {
            use_type_invariant(self);
        }
        self.model.child.is_some()
    }

    fn set(&mut self, phase: DaemonPhase, child: Option<u32>)
        requires
            DaemonModel::at(phase, child).well_formed(),
        ensures
            final(self)@ == DaemonModel::at(phase, child),
    {
        self.model = DaemonModel { phase, child };
    }

    /// Takes an event in and answers it.
    pub fn handle(&mut self, event: DaemonEvent) -> (reply: Reply)
        ensures
            (final(self)@, reply) == old(self)@.next(event),
    {
        proof {
            use_type_invariant(&*self);
        }
        let phase = self.model.phase;
        let child = self.model.child;
        match event {
            DaemonEvent::StartRequested => match phase {
                DaemonPhase::Stopped => {
                    self.set(DaemonPhase::Starting, None);
                    Reply::Do(DaemonAction::Spawn)
                },
                DaemonPhase::Running => Reply::Done,
                DaemonPhase::Closed => Reply::Failed(ProcessError::Closed),
                _ => Reply::Failed(ProcessError::Busy),
            },
            DaemonEvent::Spawned(pid) => match phase {
                DaemonPhase::Starting => {
                    self.set(DaemonPhase::Running, Some(pid));
                    Reply::Done
                },
                _ => {
                    let same = match child {
                        Some(held) => held == pid,
                        None => false,
                    };
                    if same {
                        Reply::Ignored
                    } else {
                        Reply::Do(DaemonAction::Discard(pid))
                    }
                },
            },
            DaemonEvent::SpawnFailed => match phase {
                DaemonPhase::Starting => {
                    self.set(DaemonPhase::Stopped, None);
                    Reply::Failed(ProcessError::SpawnFailed)
                },
                _ => Reply::Ignored,
            },
            DaemonEvent::StopRequested => match phase {
                DaemonPhase::Stopped => Reply::Done,
                DaemonPhase::Running => match child {
                    Some(pid) => {
                        self.set(DaemonPhase::Stopping, Some(pid));
                        Reply::Do(DaemonAction::Kill(pid))
                    },
                    None => Reply::Ignored,
                },
                DaemonPhase::Closed => Reply::Failed(ProcessError::Closed),
                _ => Reply::Failed(ProcessError::Busy),
            },
            DaemonEvent::Killed => match phase {
                DaemonPhase::Stopping => {
                    self.set(DaemonPhase::Stopped, None);
                    Reply::Done
                },
                _ => Reply::Ignored,
            },
            DaemonEvent::KillFailed => match phase {
                DaemonPhase::Stopping => {
                    self.set(DaemonPhase::Stopped, None);
                    Reply::Failed(ProcessError::TerminationFailed)
                },
                _ => Reply::Ignored,
            },
            DaemonEvent::Exited(pid, _) => {
                let ours = match (phase, child) {
                    (DaemonPhase::Running, Some(held)) => held == pid,
                    _ => false,
                };
                if ours {
                    self.set(DaemonPhase::Stopped, None);
                }
                Reply::Ignored
            },
            DaemonEvent::ErrorLine => Reply::Ignored,
            DaemonEvent::Teardown => {
                self.set(DaemonPhase::Closed, None);
                match child {
                    Some(pid) => Reply::Do(DaemonAction::Discard(pid)),
                    None => Reply::Ignored,
                }
            },
        }
    }
}

/// Asks for the engine to run. While it runs already, this succeeds at once.
pub fn start_daemon(state: &mut DaemonState) -> (reply: Reply)
    ensures
        (final(state)@, reply) == old(state)@.next(DaemonEvent::StartRequested),
{
    state.handle(DaemonEvent::StartRequested)
}

/// Asks for the engine to stop. While it is at rest, this succeeds at once.
pub fn stop_daemon(state: &mut DaemonState) -> (reply: Reply)
    ensures
        (final(state)@, reply) == old(state)@.next(DaemonEvent::StopRequested),
{
    state.handle(DaemonEvent::StopRequested)
}

/// Whether the engine is held by the supervisor.
pub fn check_daemon_status(state: &DaemonState) -> (held: bool)
    ensures
        held == state@.child is Some,
{
    state.status()
}

/// Whether an exit code tells of a clean end: zero does, any other code and
/// the lack of one do not.
pub fn exited_cleanly(code: Option<i32>) -> (clean: bool)
    ensures
        clean == (code == Some(0i32)),
{
    match code {
        Some(c) => c == 0,
        None => false,
    }
}

/// The arguments of the engine invocation: `run -c <config-file-path>`.
pub open spec fn engine_arguments_for(config_path: Seq<char>) -> Seq<Seq<char>> {
    seq!["run"@, "-c"@, config_path]
}

pub fn engine_arguments(config_path: &str) -> (args: Vec<String>)
    ensures
        strings(args@) == engine_arguments_for(config_path@),
{
    let mut args: Vec<String> = Vec::new();
    args.push("run".to_owned());
    args.push("-c".to_owned());
    args.push(config_path.to_owned());
    assert(strings(args@) =~= engine_arguments_for(config_path@));
    args
}

} // verus!
