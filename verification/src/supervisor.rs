//! The process supervisor's state machine.
//!
//! The supervisor owns at most one handle to the external server process.
//! `None` is the Idle state, `Some(h)` the Running state. The host holds the
//! state behind one lock and drives it from its hooks: on application ready it
//! performs `ensure_started` (probe, `start_decision`, then spawn and
//! `record_spawned` when asked to), and on each exit path it performs
//! `shutdown` and signals the returned handle.

use vstd::prelude::*;

verus! {

/// A handle to the one external server process the supervisor may own.
/// It is opaque beyond identity: the host maps it to whatever its platform
/// needs in order to signal termination.
#[derive(Clone, Copy, PartialEq, Eq, Structural, Debug)]
pub struct ProcessHandle {
    pub id: u64,
}

/// What `start_decision` tells the host to do.
#[derive(Clone, Copy, PartialEq, Eq, Structural, Debug)]
pub enum StartDecision {
    /// The supervisor already owns a process: do not launch another.
    AlreadyOwned,
    /// A server is already reachable on the endpoint: do not launch another.
    ExternalRunning,
    /// Nothing owned and nothing reachable: launch the server.
    Spawn,
}

/// The decision an `ensure_started` call makes, given the handle currently
/// owned and the liveness probe's result. A launch is asked for exactly when
/// the supervisor owns nothing and no server answered the probe.
pub open spec fn spec_start_decision(
    owned: Option<ProcessHandle>,
    probe_reachable: bool,
) -> StartDecision {
    if owned is Some {
        StartDecision::AlreadyOwned
    } else if probe_reachable {
        StartDecision::ExternalRunning
    } else {
        StartDecision::Spawn
    }
}

/// Whether an `ensure_started` call invokes the launch command.
pub open spec fn spec_ensure_spawns(owned: Option<ProcessHandle>, probe_reachable: bool) -> bool {
    spec_start_decision(owned, probe_reachable) is Spawn
}

/// The handle owned after a whole `ensure_started` call: `spawned` is what the
/// launch produced where one was asked for (`None`: the spawn failed, the
/// supervisor stays Idle), and is ignored where none was.
pub open spec fn spec_after_ensure(
    owned: Option<ProcessHandle>,
    probe_reachable: bool,
    spawned: Option<ProcessHandle>,
) -> Option<ProcessHandle> {
    if spec_ensure_spawns(owned, probe_reachable) && spawned is Some {
        spawned
    } else {
        owned
    }
}

/// The terminate signal a `shutdown` call issues: the owned handle, if any.
pub open spec fn spec_shutdown_signal(owned: Option<ProcessHandle>) -> Option<ProcessHandle> {
    owned
}

/// The handle owned after a `shutdown` call: none, whether or not the signal
/// could be delivered — best-effort terminate, then forget.
pub open spec fn spec_after_shutdown(owned: Option<ProcessHandle>) -> Option<ProcessHandle> {
    None
}

/// The supervisor's state: an optional owned process handle. The host wraps
/// it in its mutual-exclusion lock so concurrent start and shutdown callers
/// cannot interleave unsafely.
pub struct SupervisorState {
    process: Option<ProcessHandle>,
}

impl SupervisorState {
    /// The handle the supervisor currently owns, if any.
    pub closed spec fn owned(self) -> Option<ProcessHandle> {
        self.process
    }

    /// A fresh supervisor: Idle, owning nothing.
    pub fn new() -> (s: Self)
        ensures
            s.owned() is None,
    {
        SupervisorState { process: None }
    }

    /// True exactly when the supervisor owns no process (Idle).
    pub fn is_idle(&self) -> (r: bool)
        ensures
            r <==> self.owned() is None,
    {
        self.process.is_none()
    }

    /// The first half of `ensure_started`: given the liveness probe's result,
    /// decide whether the host must launch the server. Reads only; the state
    /// changes, if the decision is `Spawn` and the spawn succeeds, through
    /// `record_spawned`.
    pub fn start_decision(&self, probe_reachable: bool) -> (d: StartDecision)
        ensures
            d == spec_start_decision(self.owned(), probe_reachable),
    {
        match self.process {
            Some(_) => StartDecision::AlreadyOwned,
            None => if probe_reachable {
                StartDecision::ExternalRunning
            } else {
                StartDecision::Spawn
            },
        }
    }

    /// The second half of `ensure_started`: store the handle of the process
    /// the host just launched. Only an Idle supervisor may record one — the
    /// invariant that at most one process is ever owned.
    pub fn record_spawned(&mut self, handle: ProcessHandle)
        requires
            old(self).owned() is None,
        ensures
            final(self).owned() == Some(handle),
    {
        self.process = Some(handle);
    }

    /// `shutdown`: hand the host the handle to signal — the owned one, or
    /// nothing when Idle — and clear the slot in all cases. Clearing does not
    /// wait for the signal's outcome: a handle whose termination failed is
    /// forgotten, never retried.
    pub fn shutdown(&mut self) -> (signal: Option<ProcessHandle>)
        ensures
            signal == spec_shutdown_signal(old(self).owned()),
            final(self).owned() == spec_after_shutdown(old(self).owned()),
    {
        let signal = self.process;
        self.process = None;
        signal
    }
}

/// Law: `ensure_started` is idempotent. Once a first call leaves the
/// supervisor owning a process — or leaves it Idle with the external server
/// still answering the probe — a second call with no intervening `shutdown`
/// launches nothing and changes nothing, so exactly the first call's handle
/// (if any) is owned, never two.
pub proof fn lemma_ensure_started_idempotent(
    owned0: Option<ProcessHandle>,
    probe1: bool,
    spawn1: Option<ProcessHandle>,
    probe2: bool,
    spawn2: Option<ProcessHandle>,
)
    requires
        spec_after_ensure(owned0, probe1, spawn1) is Some || probe2,
    ensures
        ({
            let owned1 = spec_after_ensure(owned0, probe1, spawn1);
            &&& !spec_ensure_spawns(owned1, probe2)
            &&& spec_after_ensure(owned1, probe2, spawn2) == owned1
        }),
{
}

/// Law: `shutdown` is idempotent. After one `shutdown`, a second call finds
/// nothing to signal — no re-signal of an already-cleared handle — and leaves
/// the state as it found it.
pub proof fn lemma_shutdown_idempotent(owned0: Option<ProcessHandle>)
    ensures
        ({
            let owned1 = spec_after_shutdown(owned0);
            &&& spec_shutdown_signal(owned1) is None
            &&& spec_after_shutdown(owned1) == owned1
        }),
{
}

/// Law: no duplicate spawn. Whenever the probe reports a server already
/// reachable, `ensure_started` does not invoke the launch command, whatever
/// the supervisor owns.
pub proof fn lemma_no_spawn_when_reachable(owned: Option<ProcessHandle>)
    ensures
        !spec_ensure_spawns(owned, true),
{
}

/// Law: `shutdown` clears the state. On a Running supervisor it signals the
/// owned handle and returns to Idle; a subsequent `shutdown` signals nothing,
/// so exactly one terminate signal is issued across both calls.
pub proof fn lemma_shutdown_clears_state(h: ProcessHandle)
    ensures
        spec_shutdown_signal(Some(h)) == Some(h),
        spec_after_shutdown(Some(h)) is None,
        spec_shutdown_signal(spec_after_shutdown(Some(h))) is None,
{
}

/// Law: concurrent-call safety. The host's lock serializes an
/// `ensure_started` racing a `shutdown` against a fresh Idle supervisor into
/// one of the two orders below. In either order at most one terminate signal
/// is issued — so no handle is ever signalled twice — and the state never
/// retains a handle that was signalled: after a shutdown the slot is empty,
/// and a handle spawned after the shutdown was never signalled at all.
pub proof fn lemma_serialized_race_safe(probe: bool, spawned: Option<ProcessHandle>)
    ensures
        // `ensure_started` first, then `shutdown`
        ({
            let mid = spec_after_ensure(None, probe, spawned);
            let signal = spec_shutdown_signal(mid);
            let end = spec_after_shutdown(mid);
            &&& end is None
            &&& signal is Some ==> end != signal
        }),
        // `shutdown` first, then `ensure_started`
        ({
            let signal = spec_shutdown_signal(None);
            let mid = spec_after_shutdown(None);
            let end = spec_after_ensure(mid, probe, spawned);
            &&& signal is None
            &&& end is Some ==> end == spawned
        }),
{
}

} // verus!
