//! The process supervisor: owns the record of zero-or-one backend child
//! process and makes start, stop and status idempotent and safe.
//!
//! The supervisor itself performs no I/O.  The embedding program spawns,
//! signals and polls the real OS process and feeds each observation in as
//! an event value ([`SpawnOutcome`], [`PollOutcome`], [`KillOutcome`]);
//! every decision — stop-before-start, lazy crash detection, the bounded
//! readiness wait — is made here, against an exact transition
//! specification.  The embedding program is also responsible for killing
//! and reaping a still-tracked child when it discards the supervisor, so
//! that no process outlives it.

use vstd::prelude::*;

verus! {

use vstd::string::StringExecFns;
use crate::bridge::HttpOutcome;
use crate::types::ProcessStatus;

/// Supervisor-local failures.
#[derive(Clone, Debug)]
pub enum ProcessError {
    StartFailed(String),
    ProcessNotFound,
    IoError(String),
    CommunicationFailed(String),
}

impl ProcessError {
    /// The user-displayable message of this error.
    pub fn message(&self) -> (r: String)
        ensures
            r@ == spec_process_error_message(*self),
    {
        match self {
            ProcessError::StartFailed(m) => String::from_str("Failed to start process: ").concat(
                m.as_str(),
            ),
            ProcessError::ProcessNotFound => String::from_str("Process not found"),
            ProcessError::IoError(m) => String::from_str("IO error: ").concat(m.as_str()),
            ProcessError::CommunicationFailed(m) => String::from_str(
                "Process communication failed: ",
            ).concat(m.as_str()),
        }
    }
}

/// The message [`ProcessError::message`] yields.
pub open spec fn spec_process_error_message(e: ProcessError) -> Seq<char> {
    match e {
        ProcessError::StartFailed(m) => "Failed to start process: "@ + m@,
        ProcessError::ProcessNotFound => "Process not found"@,
        ProcessError::IoError(m) => "IO error: "@ + m@,
        ProcessError::CommunicationFailed(m) => "Process communication failed: "@ + m@,
    }
}

/// What the embedding program observed when it tried to spawn the backend:
/// the new child's process id, or the OS error's message.
#[derive(Clone, Debug)]
pub enum SpawnOutcome {
    Spawned(u32),
    SpawnError(String),
}

/// What a non-blocking liveness poll of the tracked child observed.
/// `PollError` carries the message of an OS error that left liveness
/// unknown.
#[derive(Clone, Debug)]
pub enum PollOutcome {
    StillRunning,
    Exited,
    PollError(String),
}

/// Whether the termination signal could be delivered to the tracked child.
#[derive(Clone, Debug)]
pub enum KillOutcome {
    Delivered,
    KillError(String),
}

/// The readiness wait gives up after this many health-probe attempts.
pub const MAX_READY_ATTEMPTS: u32 = 30;

/// The index of the first successful probe, if one falls within the first
/// `budget` attempts.
pub open spec fn first_ready_within(probes: Seq<bool>, budget: nat) -> Option<nat>
    decreases budget,
{
    if budget == 0 || probes.len() == 0 {
        None
    } else if probes[0] {
        Some(0)
    } else {
        match first_ready_within(probes.skip(1), (budget - 1) as nat) {
            Some(i) => Some(i + 1),
            None => None,
        }
    }
}

/// Where the first ready probe falls, everything before it failed.
pub proof fn lemma_first_ready(probes: Seq<bool>, budget: nat)
    ensures
        match first_ready_within(probes, budget) {
            Some(i) => i < budget && i < probes.len() && probes[i as int] && (forall|j: int|
                0 <= j < i ==> !probes[j]),
            None => forall|j: int| 0 <= j < budget && j < probes.len() ==> !probes[j],
        },
    decreases budget,
{
    if budget > 0 && probes.len() > 0 && !probes[0] {
        let sub = probes.skip(1);
        lemma_first_ready(sub, (budget - 1) as nat);
        assert(forall|j: int| 0 <= j < sub.len() ==> sub[j] == probes[j + 1]);
        match first_ready_within(sub, (budget - 1) as nat) {
            Some(k) => {
                assert(first_ready_within(probes, budget) == Some(k + 1));
                assert(probes[k + 1 as int] == sub[k as int]);
                assert forall|j: int| 0 <= j < k + 1 implies !probes[j] by {
                    if j > 0 {
                        assert(sub[j - 1] == probes[j]);
                    }
                }
            }
            None => {
                assert forall|j: int| 0 <= j < budget && j < probes.len() implies !probes[j] by {
                    if j > 0 {
                        assert(sub[j - 1] == probes[j]);
                    }
                }
            }
        }
    }
}

/// A successful probe at `i`, after `i` failures, is the first ready one.
pub proof fn lemma_first_ready_at(probes: Seq<bool>, budget: nat, i: nat)
    requires
        i < budget,
        i < probes.len(),
        probes[i as int],
        forall|j: int| 0 <= j < i ==> !probes[j],
    ensures
        first_ready_within(probes, budget) == Some(i),
    decreases i,
{
    if i > 0 {
        assert(forall|j: int| 0 <= j < probes.len() - 1 ==> probes.skip(1)[j] == probes[j + 1]);
        lemma_first_ready_at(probes.skip(1), (budget - 1) as nat, (i - 1) as nat);
    }
}

/// When every probe within the budget failed, there is no first ready one.
pub proof fn lemma_first_ready_none(probes: Seq<bool>, budget: nat)
    requires
        forall|j: int| 0 <= j < budget && j < probes.len() ==> !probes[j],
    ensures
        first_ready_within(probes, budget) is None,
    decreases budget,
{
    if budget > 0 && probes.len() > 0 {
        assert(forall|j: int| 0 <= j < probes.len() - 1 ==> probes.skip(1)[j] == probes[j + 1]);
        lemma_first_ready_none(probes.skip(1), (budget - 1) as nat);
    }
}

/// Decides the readiness wait over the recorded probe outcomes: `Ok` with
/// the number of attempts spent when a probe within the budget succeeded,
/// and the timeout error when none did.
pub fn wait_for_backend_ready(probes: &Vec<bool>) -> (r: Result<u32, ProcessError>)
    ensures
        match first_ready_within(probes@, MAX_READY_ATTEMPTS as nat) {
            Some(i) => r == Ok::<u32, ProcessError>((i + 1) as u32),
            None => match r {
                Err(ProcessError::CommunicationFailed(m)) => m@
                    == "Backend failed to become ready within timeout"@,
                _ => false,
            },
        },
{
    let n = probes.len();
    let cap = MAX_READY_ATTEMPTS as usize;
    let budget: usize = if n < cap {
        n
    } else {
        cap
    };
    let mut i: usize = 0;
    while i < budget
        invariant
            budget <= probes@.len(),
            budget <= MAX_READY_ATTEMPTS,
            n == probes@.len(),
            (budget == MAX_READY_ATTEMPTS || budget == n),
            i <= budget,
            forall|j: int| 0 <= j < i ==> !probes@[j],
        decreases budget - i,
    {
        if probes[i] {
            proof {
                lemma_first_ready_at(probes@, MAX_READY_ATTEMPTS as nat, i as nat);
            }
            return Ok((i + 1) as u32);
        }
        i = i + 1;
    }
    proof {
        lemma_first_ready_none(probes@, MAX_READY_ATTEMPTS as nat);
    }
    Err(
        ProcessError::CommunicationFailed(
            String::from_str("Backend failed to become ready within timeout"),
        ),
    )
}

/// Each health probe waits at most this many seconds for its response.
pub const PROBE_TIMEOUT_SECS: u64 = 5;

/// The URL the readiness prober polls for a backend on `port`.
pub fn health_probe_url(port: u16) -> (r: String)
    ensures
        r@ == "http://127.0.0.1:"@ + crate::json::dec_str_of(port as nat) + "/health"@,
{
    String::from_str("http://127.0.0.1:").concat(
        crate::json::u64_to_string(port as u64).as_str(),
    ).concat("/health")
}

/// The prober's single-attempt judgment: exactly one successful response
/// means ready; any failure status or transport error is "not ready
/// yet", never fatal on its own.
pub fn probe_ready(outcome: &HttpOutcome) -> (r: bool)
    ensures
        r == match *outcome {
            HttpOutcome::Response { status, body: _ } => crate::bridge::is_success_status(status),
            HttpOutcome::NoResponse(_) => false,
        },
{
    match outcome {
        HttpOutcome::Response { status, body: _ } => 200 <= *status && *status < 300,
        HttpOutcome::NoResponse(_) => false,
    }
}

/// What the readiness wait does after one more probe.
#[derive(Clone, Copy, Debug, PartialEq, Eq, Structural)]
pub enum WaitDecision {
    Ready,
    Retry,
    GiveUp,
}

/// Decides one step of the embedding program's readiness loop, given how
/// many probes were already made before this one and what this one
/// observed: the first success ends the wait, a failure is retried until
/// the attempt budget is spent.
pub fn readiness_step(attempts_made: u32, ready: bool) -> (r: WaitDecision)
    ensures
        (r is Ready) == ready,
        (r is Retry) == (!ready && attempts_made + 1 < MAX_READY_ATTEMPTS),
        (r is GiveUp) == (!ready && attempts_made + 1 >= MAX_READY_ATTEMPTS),
{
    if ready {
        WaitDecision::Ready
    } else if attempts_made < MAX_READY_ATTEMPTS - 1 {
        WaitDecision::Retry
    } else {
        WaitDecision::GiveUp
    }
}

/// The supervisor's record of the backend child process.
///
/// `python_process` holds the tracked child's process id; `start_time` the
/// moment it was spawned, as seconds on the embedding program's clock.
pub struct ProcessManager {
    pub python_process: Option<u32>,
    pub start_time: Option<u64>,
    pub port: u16,
}

/// The supervisor's state after a liveness check and, where the child was
/// seen alive, a delivered stop: cleared unless the poll itself failed, in
/// which case nothing is touched.
pub open spec fn after_stop_phase(m: ProcessManager, alive: PollOutcome) -> ProcessManager {
    if m.python_process is Some && !(alive is PollError) {
        ProcessManager { python_process: None, start_time: None, port: m.port }
    } else {
        m
    }
}

/// The supervisor's state after `start_python_backend`.
pub open spec fn spec_start_state(
    m: ProcessManager,
    alive: PollOutcome,
    kill: KillOutcome,
    spawn: SpawnOutcome,
    now: u64,
) -> ProcessManager {
    let was_running = m.python_process is Some && alive is StillRunning;
    if was_running && kill is KillError {
        ProcessManager { python_process: None, start_time: m.start_time, port: m.port }
    } else {
        match spawn {
            SpawnOutcome::SpawnError(_) => after_stop_phase(m, alive),
            SpawnOutcome::Spawned(pid) => ProcessManager {
                python_process: Some(pid),
                start_time: Some(now),
                port: m.port,
            },
        }
    }
}

/// What `start_python_backend` returns: exactly one case applies.
pub open spec fn spec_start_result(
    m: ProcessManager,
    alive: PollOutcome,
    kill: KillOutcome,
    spawn: SpawnOutcome,
    probes: Seq<bool>,
    r: Result<u32, ProcessError>,
) -> bool {
    let was_running = m.python_process is Some && alive is StillRunning;
    if was_running && kill is KillError {
        match (r, kill) {
            (Err(ProcessError::CommunicationFailed(msg)), KillOutcome::KillError(e)) => msg@
                == "Kill failed: "@ + e@,
            _ => false,
        }
    } else {
        match spawn {
            SpawnOutcome::SpawnError(em) => match r {
                Err(ProcessError::StartFailed(msg)) => msg@ == "Failed to spawn process: "@ + em@,
                _ => false,
            },
            SpawnOutcome::Spawned(_) => match first_ready_within(
                probes,
                MAX_READY_ATTEMPTS as nat,
            ) {
                Some(i) => r == Ok::<u32, ProcessError>((i + 1) as u32),
                None => match r {
                    Err(ProcessError::CommunicationFailed(msg)) => msg@
                        == "Backend failed to become ready within timeout"@,
                    _ => false,
                },
            },
        }
    }
}

/// The supervisor's state after `stop_python_backend`.
pub open spec fn spec_stop_state(m: ProcessManager, kill: KillOutcome) -> ProcessManager {
    if m.python_process is None {
        m
    } else if kill is Delivered {
        ProcessManager { python_process: None, start_time: None, port: m.port }
    } else {
        ProcessManager { python_process: None, start_time: m.start_time, port: m.port }
    }
}

/// The supervisor's state after a liveness check: a child seen exited is
/// released on the spot.
pub open spec fn spec_check_state(m: ProcessManager, alive: PollOutcome) -> ProcessManager {
    if m.python_process is Some && alive is Exited {
        ProcessManager { python_process: None, start_time: None, port: m.port }
    } else {
        m
    }
}

/// Whether a liveness check reports the child as running.
pub open spec fn spec_is_running(m: ProcessManager, alive: PollOutcome) -> bool {
    m.python_process is Some && alive is StillRunning
}

impl ProcessManager {
    /// A fresh supervisor: nothing tracked, default port.
    pub fn new() -> (r: Self)
        ensures
            r.python_process is None,
            r.start_time is None,
            r.port == 8008u16,
    {
        ProcessManager { python_process: None, start_time: None, port: 8008 }
    }

    /// Starts the backend: stops a child still seen alive, records the new
    /// spawn, and blocks the embedding program's readiness loop until a
    /// health probe succeeds or the attempt budget is spent.  `alive` is
    /// the liveness poll of any tracked child, `kill` the delivery of the
    /// termination signal (consulted only where that child was seen
    /// alive), `spawn` the outcome of spawning anew, `probes` the health
    /// probes made after the spawn, `now` the clock reading at the spawn.
    /// Returns the number of probe attempts spent when the backend became
    /// ready; on a timeout the child stays tracked, for a later retry.
    pub fn start_python_backend(
        &mut self,
        alive: PollOutcome,
        kill: KillOutcome,
        spawn: SpawnOutcome,
        probes: &Vec<bool>,
        now: u64,
    ) -> (r: Result<u32, ProcessError>)
        ensures
            *final(self) == spec_start_state(*old(self), alive, kill, spawn, now),
            spec_start_result(*old(self), alive, kill, spawn, probes@, r),
    {
        if self.is_backend_running(alive) {
            match self.stop_python_backend(kill) {
                Ok(_) => {
                }
                Err(e) => {
                    return Err(e);
                }
            }
        }
        match spawn {
            SpawnOutcome::SpawnError(em) => Err(
                ProcessError::StartFailed(
                    String::from_str("Failed to spawn process: ").concat(em.as_str()),
                ),
            ),
            SpawnOutcome::Spawned(pid) => {
                self.python_process = Some(pid);
                self.start_time = Some(now);
                wait_for_backend_ready(probes)
            }
        }
    }

    /// Stops the backend: a no-op success when nothing is tracked;
    /// otherwise the tracked child is released, successfully when the
    /// termination signal was delivered, with the delivery error
    /// surfaced when it was not.
    pub fn stop_python_backend(&mut self, kill: KillOutcome) -> (r: Result<(), ProcessError>)
        ensures
            *final(self) == spec_stop_state(*old(self), kill),
            match r {
                Ok(()) => old(self).python_process is None || kill is Delivered,
                Err(e) => old(self).python_process is Some && match (e, kill) {
                    (ProcessError::CommunicationFailed(msg), KillOutcome::KillError(em)) => msg@
                        == "Kill failed: "@ + em@,
                    _ => false,
                },
            },
    {
        if self.python_process.is_none() {
            return Ok(());
        }
        self.python_process = None;
        match kill {
            KillOutcome::Delivered => {
                self.start_time = None;
                Ok(())
            }
            KillOutcome::KillError(em) => Err(
                ProcessError::CommunicationFailed(
                    String::from_str("Kill failed: ").concat(em.as_str()),
                ),
            ),
        }
    }

    /// Non-blocking liveness check; the point at which a child that
    /// exited on its own is observed and released.
    pub fn is_backend_running(&mut self, alive: PollOutcome) -> (r: bool)
        ensures
            *final(self) == spec_check_state(*old(self), alive),
            r == spec_is_running(*old(self), alive),
    {
        match self.python_process {
            None => false,
            Some(_) => match alive {
                PollOutcome::StillRunning => true,
                PollOutcome::Exited => {
                    self.python_process = None;
                    self.start_time = None;
                    false
                }
                PollOutcome::PollError(_) => false,
            },
        }
    }

    /// A status snapshot: liveness, tracked pid, port and uptime.  The
    /// health field is left absent here; the command layer fills it in.
    pub fn get_backend_status(&mut self, alive: PollOutcome, now: u64) -> (r: ProcessStatus)
        ensures
            *final(self) == spec_check_state(*old(self), alive),
            r.is_running == spec_is_running(*old(self), alive),
            r.pid == final(self).python_process,
            r.port == old(self).port,
            r.uptime_seconds == match final(self).start_time {
                Some(s) => Some(if now >= s {
                    (now - s) as u64
                } else {
                    0u64
                }),
                None => None::<u64>,
            },
            r.health_status is None,
    {
        let is_running = self.is_backend_running(alive);
        let pid = self.python_process;
        let uptime_seconds = match self.start_time {
            Some(s) => Some(
                if now >= s {
                    now - s
                } else {
                    0
                },
            ),
            None => None,
        };
        ProcessStatus { is_running, pid, port: self.port, uptime_seconds, health_status: None }
    }

    /// Sets the TCP port the backend is spawned on.
    pub fn set_port(&mut self, port: u16)
        ensures
            final(self).port == port,
            final(self).python_process == old(self).python_process,
            final(self).start_time == old(self).start_time,
    {
        self.port = port;
    }

    /// The configured TCP port.
    pub fn get_port(&self) -> (r: u16)
        ensures
            r == self.port,
    {
        self.port
    }
}

/// The supervisor tracks at most one child at a time: after any start, the
/// tracked pid — when there is one — is either exactly the pid of the
/// child this start spawned, or, where no spawn happened, the one already
/// tracked; and whenever a new spawn is recorded, a previously tracked
/// child whose liveness poll answered has been released first.
pub proof fn lemma_start_tracks_at_most_one(
    m: ProcessManager,
    alive: PollOutcome,
    kill: KillOutcome,
    spawn: SpawnOutcome,
    now: u64,
)
    ensures
        match (spec_start_state(m, alive, kill, spawn, now).python_process, spawn) {
            (Some(pid), SpawnOutcome::Spawned(p)) => pid == p,
            (Some(pid), SpawnOutcome::SpawnError(_)) => m.python_process == Some(pid),
            (None, _) => true,
        },
        (m.python_process is Some && !(alive is PollError)) ==> after_stop_phase(
            m,
            alive,
        ).python_process is None,
{
}

/// Stop is idempotent: on a supervisor that tracks nothing it succeeds and
/// changes nothing, whatever the kill event says.
pub proof fn lemma_stop_idempotent(m: ProcessManager, kill: KillOutcome)
    requires
        m.python_process is None,
    ensures
        spec_stop_state(m, kill) == m,
{
}

/// A child that exited on its own is observed as not running by the very
/// next liveness check, which also releases the tracked handle — no
/// explicit stop needed.
pub proof fn lemma_crash_observed(m: ProcessManager)
    ensures
        !spec_is_running(m, PollOutcome::Exited),
        spec_check_state(m, PollOutcome::Exited).python_process is None,
        spec_check_state(m, PollOutcome::Exited).start_time is None || m.python_process is None,
{
}

/// The readiness wait is decided within the attempt budget: it succeeds
/// exactly where a probe within the budget succeeded, spending no more
/// attempts than the budget, and reports failure otherwise rather than
/// waiting on.
pub proof fn lemma_readiness_budget(probes: Seq<bool>)
    ensures
        match first_ready_within(probes, MAX_READY_ATTEMPTS as nat) {
            Some(i) => i < MAX_READY_ATTEMPTS && i < probes.len() && probes[i as int] && (
            forall|j: int| 0 <= j < i ==> !probes[j]),
            None => forall|j: int|
                0 <= j < MAX_READY_ATTEMPTS && j < probes.len() ==> !probes[j],
        },
{
    lemma_first_ready(probes, MAX_READY_ATTEMPTS as nat);
}

} // verus!
