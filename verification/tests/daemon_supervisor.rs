use proxy_core::daemon::{
    check_daemon_status, engine_arguments, exited_cleanly, start_daemon, stop_daemon, DaemonAction,
    DaemonEvent, DaemonPhase, DaemonState, ProcessError, Reply,
};

/// A host that carries the supervisor's orders out and counts them.
struct Host {
    spawned: u32,
    killed: Vec<u32>,
    next_pid: u32,
    spawn_works: bool,
    kill_works: bool,
}

impl Host {
    fn new() -> Host {
        Host { spawned: 0, killed: vec![], next_pid: 100, spawn_works: true, kill_works: true }
    }

    fn carry_out(&mut self, state: &mut DaemonState, mut reply: Reply) -> Reply {
        loop {
            match reply {
                Reply::Do(DaemonAction::Spawn) => {
                    let event = if self.spawn_works {
                        self.spawned += 1;
                        self.next_pid += 1;
                        DaemonEvent::Spawned(self.next_pid)
                    } else {
                        DaemonEvent::SpawnFailed
                    };
                    reply = state.handle(event);
                }
                Reply::Do(DaemonAction::Kill(pid)) => {
                    self.killed.push(pid);
                    let event = if self.kill_works { DaemonEvent::Killed } else { DaemonEvent::KillFailed };
                    reply = state.handle(event);
                }
                Reply::Do(DaemonAction::Discard(pid)) => {
                    self.killed.push(pid);
                    return reply;
                }
                other => return other,
            }
        }
    }

    fn start(&mut self, state: &mut DaemonState) -> Reply {
        let reply = start_daemon(state);
        self.carry_out(state, reply)
    }

    fn stop(&mut self, state: &mut DaemonState) -> Reply {
        let reply = stop_daemon(state);
        self.carry_out(state, reply)
    }
}

#[test]
fn start_twice_spawns_once() {
    let mut host = Host::new();
    let mut state = DaemonState::new();
    assert!(!check_daemon_status(&state));
    assert_eq!(host.start(&mut state), Reply::Done);
    assert_eq!(state.phase(), DaemonPhase::Running);
    assert_eq!(host.start(&mut state), Reply::Done);
    assert_eq!(state.phase(), DaemonPhase::Running);
    assert_eq!(host.spawned, 1);
    assert_eq!(state.child(), Some(101));
    assert!(check_daemon_status(&state));
    assert!(state.status());
}

#[test]
fn stop_twice_kills_once() {
    let mut host = Host::new();
    let mut state = DaemonState::new();
    assert_eq!(host.stop(&mut state), Reply::Done);
    assert!(host.killed.is_empty());
    host.start(&mut state);
    assert_eq!(host.stop(&mut state), Reply::Done);
    assert_eq!(host.stop(&mut state), Reply::Done);
    assert_eq!(host.killed, vec![101]);
    assert_eq!(state.phase(), DaemonPhase::Stopped);
    assert_eq!(state.child(), None);
}

#[test]
fn spawn_failure_leaves_supervisor_stopped() {
    let mut host = Host::new();
    host.spawn_works = false;
    let mut state = DaemonState::new();
    assert_eq!(host.start(&mut state), Reply::Failed(ProcessError::SpawnFailed));
    assert_eq!(state.phase(), DaemonPhase::Stopped);
    assert!(!state.status());
    host.spawn_works = true;
    assert_eq!(host.start(&mut state), Reply::Done);
    assert!(state.status());
}

#[test]
fn kill_failure_still_clears_the_handle() {
    let mut host = Host::new();
    host.kill_works = false;
    let mut state = DaemonState::new();
    host.start(&mut state);
    assert_eq!(host.stop(&mut state), Reply::Failed(ProcessError::TerminationFailed));
    assert_eq!(state.phase(), DaemonPhase::Stopped);
    assert!(!check_daemon_status(&state));
}

#[test]
fn unexpected_exit_returns_to_stopped() {
    let mut host = Host::new();
    let mut state = DaemonState::new();
    host.start(&mut state);
    assert_eq!(state.handle(DaemonEvent::ErrorLine), Reply::Ignored);
    assert_eq!(state.phase(), DaemonPhase::Running);
    assert_eq!(state.handle(DaemonEvent::Exited(999, Some(1))), Reply::Ignored);
    assert_eq!(state.phase(), DaemonPhase::Running);
    assert_eq!(state.handle(DaemonEvent::Exited(101, Some(1))), Reply::Ignored);
    assert_eq!(state.phase(), DaemonPhase::Stopped);
    assert_eq!(state.child(), None);
    assert_eq!(host.start(&mut state), Reply::Done);
    assert_eq!(host.spawned, 2);
}

#[test]
fn teardown_while_running_kills_exactly_once() {
    let mut host = Host::new();
    let mut state = DaemonState::new();
    host.start(&mut state);
    let reply = state.handle(DaemonEvent::Teardown);
    assert_eq!(reply, Reply::Do(DaemonAction::Discard(101)));
    host.carry_out(&mut state, reply);
    assert_eq!(host.killed, vec![101]);
    assert_eq!(state.phase(), DaemonPhase::Closed);
    assert_eq!(state.handle(DaemonEvent::Teardown), Reply::Ignored);
    assert_eq!(start_daemon(&mut state), Reply::Failed(ProcessError::Closed));
    assert_eq!(stop_daemon(&mut state), Reply::Failed(ProcessError::Closed));
    assert_eq!(host.killed.len(), 1);
}

#[test]
fn teardown_at_rest_orders_nothing() {
    let mut state = DaemonState::new();
    assert_eq!(state.handle(DaemonEvent::Teardown), Reply::Ignored);
    assert_eq!(state.phase(), DaemonPhase::Closed);
}

#[test]
fn requests_in_flight_are_busy() {
    let mut state = DaemonState::new();
    assert_eq!(start_daemon(&mut state), Reply::Do(DaemonAction::Spawn));
    assert_eq!(state.phase(), DaemonPhase::Starting);
    assert!(!state.status());
    assert_eq!(start_daemon(&mut state), Reply::Failed(ProcessError::Busy));
    assert_eq!(stop_daemon(&mut state), Reply::Failed(ProcessError::Busy));
    assert_eq!(state.handle(DaemonEvent::Spawned(7)), Reply::Done);
    assert_eq!(stop_daemon(&mut state), Reply::Do(DaemonAction::Kill(7)));
    assert_eq!(state.phase(), DaemonPhase::Stopping);
    assert!(state.status());
    assert_eq!(start_daemon(&mut state), Reply::Failed(ProcessError::Busy));
    assert_eq!(state.handle(DaemonEvent::Killed), Reply::Done);
}

#[test]
fn processes_nobody_asked_for_are_sent_away() {
    let mut state = DaemonState::new();
    assert_eq!(state.handle(DaemonEvent::Spawned(5)), Reply::Do(DaemonAction::Discard(5)));
    assert_eq!(state.phase(), DaemonPhase::Stopped);
    assert_eq!(state.handle(DaemonEvent::Killed), Reply::Ignored);
    assert_eq!(state.handle(DaemonEvent::KillFailed), Reply::Ignored);
    assert_eq!(state.handle(DaemonEvent::SpawnFailed), Reply::Ignored);
    start_daemon(&mut state);
    state.handle(DaemonEvent::Spawned(6));
    assert_eq!(state.handle(DaemonEvent::Spawned(6)), Reply::Ignored);
    assert_eq!(state.handle(DaemonEvent::Spawned(8)), Reply::Do(DaemonAction::Discard(8)));
    assert_eq!(state.child(), Some(6));
}

#[test]
fn engine_invocation() {
    assert_eq!(engine_arguments("/data/config.json"), vec!["run", "-c", "/data/config.json"]);
    assert!(exited_cleanly(Some(0)));
    assert!(!exited_cleanly(Some(1)));
    assert!(!exited_cleanly(None));
}
