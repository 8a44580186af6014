use vstd::prelude::*;

use crate::error::SupervisorError;
use crate::launch::LaunchMode;
use crate::launch::LaunchPlan;
use crate::launch::result_view;

verus! {

/// The two ways a backend process can be held.
#[derive(Clone, Copy, Debug, PartialEq, Eq, Structural)]
pub enum HandleKind {
    /// Spawned locally: can be polled, killed and reaped.
    Direct,
    /// Spawned through the host's execution facility: can be killed, not polled.
    Managed,
}

/// Identity of a supervised process.
#[derive(Clone, Copy, Debug, PartialEq, Eq, Structural)]
pub struct ChildId {
    pub kind: HandleKind,
    pub pid: u32,
}

/// A supervised process: its identity and the handle through which it is
/// controlled.
#[derive(Debug)]
pub struct SupervisedChild<H> {
    pub id: ChildId,
    pub handle: H,
}

/// Result of a non-blocking liveness probe of the tracked process.
#[derive(Clone, Copy, Debug, PartialEq, Eq, Structural)]
pub enum Liveness {
    Running,
    Exited,
    /// The handle cannot be polled; such a process counts as alive until stopped.
    Unknown,
    /// The poll itself failed; the process counts as gone.
    ProbeFailed,
}

/// First decision of a start request.
#[derive(Clone, Copy, Debug, PartialEq, Eq, Structural)]
pub enum StartDecision {
    /// A live backend is tracked already: nothing is spawned.
    AlreadyRunning { pid: u32 },
    /// Nothing live is tracked: a backend is to be launched.
    Launch,
}

/// How the kill of a tracked process went.
#[derive(Debug)]
pub enum Termination {
    Terminated,
    KillFailed { os_error: String },
    WaitFailed { os_error: String },
}

pub const ALREADY_RUNNING: &'static str = "Backend already running";

pub const STARTED_DEVELOPMENT: &'static str = "Backend started successfully (development)";

pub const STARTED_PRODUCTION: &'static str = "Backend started successfully (production)";

pub const STOPPED: &'static str = "Backend stopped successfully";

pub const NOT_RUNNING: &'static str = "Backend was not running";

pub open spec fn is_alive(probe: Liveness) -> bool {
    probe is Running || probe is Unknown
}

pub open spec fn kind_for(mode: LaunchMode) -> HandleKind {
    match mode {
        LaunchMode::Development => HandleKind::Direct,
        LaunchMode::Production => HandleKind::Managed,
    }
}

pub open spec fn started_status(mode: LaunchMode) -> Seq<char> {
    match mode {
        LaunchMode::Development => STARTED_DEVELOPMENT@,
        LaunchMode::Production => STARTED_PRODUCTION@,
    }
}

/// What a start request decides, given the child that was tracked and its probe.
pub open spec fn start_decision<H>(prior: Option<SupervisedChild<H>>, probe: Liveness) -> StartDecision {
    match prior {
        Some(c) => if is_alive(probe) {
            StartDecision::AlreadyRunning { pid: c.id.pid }
        } else {
            StartDecision::Launch
        },
        None => StartDecision::Launch,
    }
}

/// What stays tracked after that decision: the live child, or nothing.
pub open spec fn kept_child<H>(prior: Option<SupervisedChild<H>>, probe: Liveness) -> Option<SupervisedChild<H>> {
    if start_decision(prior, probe) is Launch {
        None
    } else {
        prior
    }
}

/// What is tracked after a spawn attempt in `mode`.
pub open spec fn after_spawn<H>(mode: LaunchMode, spawned: Result<(u32, H), String>) -> Option<SupervisedChild<H>> {
    match spawned {
        Ok((pid, handle)) => Some(SupervisedChild { id: ChildId { kind: kind_for(mode), pid }, handle }),
        Err(_) => None,
    }
}

/// The outcome a stop request reports: "not running" when nothing was tracked,
/// success when the tracked process was terminated, the failure otherwise.
pub open spec fn stop_outcome(stopped: Option<(u32, Termination)>) -> Result<Seq<char>, SupervisorError> {
    match stopped {
        None => Ok(NOT_RUNNING@),
        Some((pid, t)) => match t {
            Termination::Terminated => Ok(STOPPED@),
            Termination::KillFailed { os_error } => Err(SupervisorError::Kill { pid, os_error }),
            Termination::WaitFailed { os_error } => Err(SupervisorError::Wait { pid, os_error }),
        },
    }
}

/// Whether a killed process of this kind is waited on; a managed one cannot be.
pub open spec fn reaps_after_kill(kind: HandleKind) -> bool {
    kind is Direct
}

/// Whether a killed process of `kind` is to be waited on before the stop is
/// reported.
pub fn reap_after_kill(kind: HandleKind) -> (r: bool)
    ensures
        r == reaps_after_kill(kind),
{
    match kind {
        HandleKind::Direct => true,
        HandleKind::Managed => false,
    }
}

/// The process-wide supervision state: at most one backend process is tracked.
pub struct Supervisor<H> {
    child: Option<SupervisedChild<H>>,
}

impl<H> View for Supervisor<H> {
    type V = Option<SupervisedChild<H>>;

    closed spec fn view(&self) -> Option<SupervisedChild<H>> {
        self.child
    }
}

impl<H> Supervisor<H> {
    /// An empty supervisor: nothing is tracked.
    pub fn new() -> (r: Self)
        ensures
            r@ is None,
    {
        Supervisor { child: None }
    }

    /// Identity of the tracked process, if any.
    pub fn current(&self) -> (r: Option<ChildId>)
        ensures
            r == (match self@ {
                Some(c) => Some(c.id),
                None => None::<ChildId>,
            }),
    {
        match &self.child {
            Some(c) => Some(c.id),
            None => None,
        }
    }

    /// Takes the tracked process out: nothing is tracked afterwards, whatever
    /// the caller then does with it.
    pub fn take(&mut self) -> (r: Option<SupervisedChild<H>>)
        ensures
            r == old(self)@,
            final(self)@ is None,
    {
        self.child.take()
    }

    /// Start, first step: `prior` is what `take` returned and `probe` its
    /// liveness. A live child is tracked again and no launch is due; a child
    /// that exited, or whose probe failed, is discarded.
    pub fn keep_if_alive(&mut self, prior: Option<SupervisedChild<H>>, probe: Liveness) -> (d: StartDecision)
        requires
            old(self)@ is None,
        ensures
            d == start_decision(prior, probe),
            final(self)@ == kept_child(prior, probe),
    {
        match prior {
            Some(c) => {
                if matches!(probe, Liveness::Running | Liveness::Unknown) {
                    let pid = c.id.pid;
                    self.child = Some(c);
                    StartDecision::AlreadyRunning { pid }
                } else {
                    StartDecision::Launch
                }
            },
            None => StartDecision::Launch,
        }
    }

    /// Start, last step: records the outcome of spawning `plan`. On success the
    /// new process is tracked under the PID the spawn reported and the status
    /// names the mode; on failure nothing is tracked and the error names the
    /// attempted command and the system error.
    pub fn record_spawn(&mut self, plan: &LaunchPlan, spawned: Result<(u32, H), String>) -> (r: Result<String, SupervisorError>)
        requires
            old(self)@ is None,
        ensures
            final(self)@ == after_spawn(plan.mode, spawned),
            result_view(r) == (match spawned {
                Ok(_) => Ok(started_status(plan.mode)),
                Err(e) => Err(SupervisorError::Launch { command: plan.program, os_error: e }),
            }),
    {
        match spawned {
            Ok((pid, handle)) => {
                let kind = match plan.mode {
                    LaunchMode::Development => HandleKind::Direct,
                    LaunchMode::Production => HandleKind::Managed,
                };
                self.child = Some(SupervisedChild { id: ChildId { kind, pid }, handle });
                match plan.mode {
                    LaunchMode::Development => Ok(String::from_str(STARTED_DEVELOPMENT)),
                    LaunchMode::Production => Ok(String::from_str(STARTED_PRODUCTION)),
                }
            },
            Err(e) => Err(SupervisorError::Launch { command: plan.program.clone(), os_error: e }),
        }
    }
}

/// Status text of a start request that found a live backend.
pub fn already_running_status() -> (r: String)
    ensures
        r@ == ALREADY_RUNNING@,
{
    String::from_str(ALREADY_RUNNING)
}

/// Reports a stop request: `stopped` holds the PID of the process that was
/// tracked and how its kill went, or `None` when nothing was tracked.
pub fn stop_status(stopped: Option<(u32, Termination)>) -> (r: Result<String, SupervisorError>)
    ensures
        result_view(r) == stop_outcome(stopped),
{
    match stopped {
        None => Ok(String::from_str(NOT_RUNNING)),
        Some((pid, t)) => match t {
            Termination::Terminated => Ok(String::from_str(STOPPED)),
            Termination::KillFailed { os_error } => Err(SupervisorError::Kill { pid, os_error }),
            Termination::WaitFailed { os_error } => Err(SupervisorError::Wait { pid, os_error }),
        },
    }
}

/// A start request made right after a successful one, with no stop between, finds
/// the new process alive: it spawns nothing, reports the running PID and keeps
/// that one process tracked.
pub proof fn lemma_second_start_spawns_nothing<H>(mode: LaunchMode, pid: u32, handle: H, probe: Liveness)
    requires
        is_alive(probe),
    ensures
        start_decision(after_spawn(mode, Ok((pid, handle))), probe) == (StartDecision::AlreadyRunning { pid }),
        kept_child(after_spawn(mode, Ok((pid, handle))), probe) == after_spawn(mode, Ok((pid, handle))),
{
}

/// A stop request with nothing tracked reports "not running" and no error.
pub proof fn lemma_stop_when_idle()
    ensures
        stop_outcome(None) == Ok::<Seq<char>, SupervisorError>(NOT_RUNNING@),
        stop_outcome(None) is Ok,
{
}

/// After a successful spawn the tracked process carries the PID and the handle
/// that the spawn returned.
pub proof fn lemma_spawn_records_pid<H>(mode: LaunchMode, pid: u32, handle: H)
    ensures
        after_spawn(mode, Ok((pid, handle))) is Some,
        after_spawn(mode, Ok((pid, handle)))->Some_0.id.pid == pid,
        after_spawn(mode, Ok((pid, handle)))->Some_0.id.kind == kind_for(mode),
        after_spawn(mode, Ok((pid, handle)))->Some_0.handle == handle,
{
}

/// A stop of a tracked process reports success only when its kill was delivered
/// and, where the kind allows it, the process was reaped.
pub proof fn lemma_stop_success_means_terminated(pid: u32, t: Termination)
    ensures
        stop_outcome(Some((pid, t))) is Ok <==> t is Terminated,
{
}

} // verus!
