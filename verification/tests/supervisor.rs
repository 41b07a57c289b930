use eliza_supervisor::supervisor::{ProcessHandle, StartDecision, SupervisorState};

// A tiny spy harness: drives the supervisor the way the host's hooks do,
// counting launch commands and terminate signals.
struct Spy {
    spawns: u32,
    terminates: u32,
}

impl Spy {
    fn new() -> Spy {
        Spy { spawns: 0, terminates: 0 }
    }

    // one whole ensure_started call: probe result in, spawn on demand
    fn ensure_started(&mut self, sup: &mut SupervisorState, probe_reachable: bool, next: u64) {
        if let StartDecision::Spawn = sup.start_decision(probe_reachable) {
            self.spawns += 1;
            sup.record_spawned(ProcessHandle { id: next });
        }
    }

    // one whole shutdown call: signal whatever handle comes back
    fn shutdown(&mut self, sup: &mut SupervisorState) -> Option<ProcessHandle> {
        let sig = sup.shutdown();
        if sig.is_some() {
            self.terminates += 1;
        }
        sig
    }
}

#[test]
fn ensure_started_twice_owns_one_handle() {
    let mut sup = SupervisorState::new();
    let mut spy = Spy::new();
    spy.ensure_started(&mut sup, false, 1);
    assert_eq!(spy.spawns, 1);
    assert!(!sup.is_idle());
    // second call: the stored handle is already present, so no second launch
    spy.ensure_started(&mut sup, false, 2);
    assert_eq!(spy.spawns, 1);
    assert!(!sup.is_idle());
    let sig = sup.shutdown();
    assert_eq!(sig, Some(ProcessHandle { id: 1 }));
}

#[test]
fn ensure_started_twice_external_server() {
    // an externally started server answers the probe on both calls
    let mut sup = SupervisorState::new();
    let mut spy = Spy::new();
    spy.ensure_started(&mut sup, true, 1);
    spy.ensure_started(&mut sup, true, 2);
    assert_eq!(spy.spawns, 0);
    assert!(sup.is_idle());
}

#[test]
fn shutdown_twice_no_resignal() {
    let mut sup = SupervisorState::new();
    sup.record_spawned(ProcessHandle { id: 9 });
    let first = sup.shutdown();
    assert_eq!(first, Some(ProcessHandle { id: 9 }));
    let second = sup.shutdown();
    assert_eq!(second, None);
}

#[test]
fn no_spawn_when_probe_reachable() {
    let sup = SupervisorState::new();
    let d = sup.start_decision(true);
    assert_eq!(d, StartDecision::ExternalRunning);
    assert!(!matches!(d, StartDecision::Spawn));
}

#[test]
fn start_decision_spawns_only_when_idle_and_unreachable() {
    let mut sup = SupervisorState::new();
    assert_eq!(sup.start_decision(false), StartDecision::Spawn);
    sup.record_spawned(ProcessHandle { id: 5 });
    assert_eq!(sup.start_decision(false), StartDecision::AlreadyOwned);
    assert_eq!(sup.start_decision(true), StartDecision::AlreadyOwned);
}

#[test]
fn shutdown_clears_state_single_terminate() {
    let mut sup = SupervisorState::new();
    let mut spy = Spy::new();
    spy.ensure_started(&mut sup, false, 3);
    spy.shutdown(&mut sup);
    spy.shutdown(&mut sup);
    // exactly one terminate signal across both shutdown calls
    assert_eq!(spy.terminates, 1);
    assert!(sup.is_idle());
}

#[test]
fn spawn_failure_leaves_idle() {
    // the launch command failed: the host records nothing, the supervisor
    // stays Idle, and no handle is ever signalled for the failed attempt
    let mut sup = SupervisorState::new();
    let d = sup.start_decision(false);
    assert_eq!(d, StartDecision::Spawn);
    assert!(sup.is_idle());
    assert_eq!(sup.shutdown(), None);
}

#[test]
fn serialized_start_then_shutdown() {
    // the lock serializes the racing callers: start wins the lock first
    let mut sup = SupervisorState::new();
    let mut spy = Spy::new();
    spy.ensure_started(&mut sup, false, 7);
    let sig = spy.shutdown(&mut sup);
    assert_eq!(sig, Some(ProcessHandle { id: 7 }));
    assert_eq!(spy.terminates, 1);
    // the signalled handle is not retained
    assert!(sup.is_idle());
}

#[test]
fn serialized_shutdown_then_start() {
    // the lock serializes the racing callers: shutdown wins the lock first
    let mut sup = SupervisorState::new();
    let mut spy = Spy::new();
    let sig = spy.shutdown(&mut sup);
    assert_eq!(sig, None);
    spy.ensure_started(&mut sup, false, 8);
    // the retained handle is the live spawn; nothing was ever signalled for it
    assert_eq!(spy.terminates, 0);
    assert!(!sup.is_idle());
    assert_eq!(sup.shutdown(), Some(ProcessHandle { id: 8 }));
}

#[test]
fn end_to_end_spawn_then_shutdown() {
    // endpoint unreachable: ensure_started spawns P and the state is Running(P);
    // shutdown signals P exactly once and the state returns to Idle
    let mut sup = SupervisorState::new();
    let mut spy = Spy::new();
    spy.ensure_started(&mut sup, false, 41);
    assert_eq!(spy.spawns, 1);
    assert!(!sup.is_idle());
    let sig = spy.shutdown(&mut sup);
    assert_eq!(sig, Some(ProcessHandle { id: 41 }));
    assert!(sup.is_idle());
    assert_eq!(spy.terminates, 1);
}
