//! The supervisor of the one backend process.
//!
//! A supervisor holds at most one process handle. It is either idle (no
//! handle) or running (a handle). It never creates or signals a process
//! itself: `start` decides whether one is to be created, `finish_start` takes
//! in what came of the attempt, and `stop` hands out the handle that is to be
//! signalled. Every method that changes the supervisor takes it by `&mut`, so
//! callers that share one between threads must lock it, and each call is one
//! step that nothing else can come between.

use crate::launch::{plan_of, LaunchPlan, LaunchPlanView, StartConfig, StartConfigView};
use vstd::prelude::*;

verus! {

/// A process of the operating system, owned by whoever holds this value.
#[derive(Debug, PartialEq, Eq)]
pub struct ProcessHandle<H> {
    /// The identifier the operating system gave the process, kept for
    /// messages only.
    pub pid: u32,
    /// The operating system's own handle, through which the process is
    /// signalled.
    pub process: H,
}

/// Why no process could be created.
#[derive(Clone, Copy, Debug, PartialEq, Eq, Structural)]
pub enum SpawnError {
    /// No such executable.
    NotFound,
    /// The executable may not be run.
    PermissionDenied,
    /// The system has no room for another process.
    ResourcesExhausted,
    /// Anything else.
    Other,
}

/// What `start` decides.
#[derive(Debug, PartialEq, Eq)]
pub enum StartDecision {
    /// No process is held: the caller is to create this one, and to hand what
    /// came of it to `finish_start`.
    Spawn(LaunchPlan),
    /// A process is held already: none is to be created.
    AlreadyRunning { pid: u32 },
}

/// A `StartDecision` as plain mathematical values.
pub enum StartDecisionView {
    Spawn(LaunchPlanView),
    AlreadyRunning { pid: u32 },
}

impl View for StartDecision {
    type V = StartDecisionView;

    open spec fn view(&self) -> StartDecisionView {
        match self {
            StartDecision::Spawn(plan) => StartDecisionView::Spawn(plan@),
            StartDecision::AlreadyRunning { pid } => StartDecisionView::AlreadyRunning {
                pid: *pid,
            },
        }
    }
}

/// What came of a start.
#[derive(Debug, PartialEq, Eq)]
pub enum StartReport<H> {
    /// The process was created and is now held.
    Started { pid: u32 },
    /// No process was created; the supervisor is as it was.
    Failed(SpawnError),
    /// The process was created, but another was held by then: the supervisor
    /// keeps the one it had and hands the new one back to the caller.
    Rejected(ProcessHandle<H>),
}

/// What `start` decides for a supervisor that holds `held`.
pub open spec fn decide_start<H>(
    held: Option<ProcessHandle<H>>,
    config: StartConfigView,
) -> StartDecisionView {
    match held {
        Some(handle) => StartDecisionView::AlreadyRunning { pid: handle.pid },
        None => StartDecisionView::Spawn(plan_of(config)),
    }
}

/// What a supervisor that holds `held` holds after an attempt that ended in
/// `outcome`, and what it reports.
pub open spec fn record_outcome<H>(
    held: Option<ProcessHandle<H>>,
    outcome: Result<ProcessHandle<H>, SpawnError>,
) -> (Option<ProcessHandle<H>>, StartReport<H>) {
    match outcome {
        Ok(handle) => match held {
            None => (Some(handle), StartReport::Started { pid: handle.pid }),
            Some(_) => (held, StartReport::Rejected(handle)),
        },
        Err(error) => (held, StartReport::Failed(error)),
    }
}

/// What a supervisor that holds `held` holds after a stop, and what the stop
/// hands to its caller: the handle is taken out, whether there is one or not.
pub open spec fn release<H>(held: Option<ProcessHandle<H>>) -> (
    Option<ProcessHandle<H>>,
    Option<ProcessHandle<H>>,
) {
    (None, held)
}

/// The supervisor of the backend process.
pub struct ProcessSupervisor<H> {
    handle: Option<ProcessHandle<H>>,
}

impl<H> View for ProcessSupervisor<H> {
    type V = Option<ProcessHandle<H>>;

    /// The handle that is held, if any.
    closed spec fn view(&self) -> Option<ProcessHandle<H>> {
        self.handle
    }
}

impl<H> ProcessSupervisor<H> {
    /// Whether a process is held.
    pub open spec fn running(&self) -> bool {
        self@ is Some
    }

    /// An idle supervisor.
    pub fn new() -> (supervisor: Self)
        ensures
            supervisor@ is None,
            !supervisor.running(),
    {
        ProcessSupervisor { handle: None }
    }

    /// Whether a process is held.
    #[verifier::when_used_as_spec(running)]
    pub fn is_running(&self) -> (running: bool)
        ensures
            running == self.running(),
    {
        self.handle.is_some()
    }

    /// The identifier of the process that is held, if any.
    pub fn pid(&self) -> (pid: Option<u32>)
        ensures
            pid == match self@ {
                Some(handle) => Some(handle.pid),
                None => None,
            },
    {
        match &self.handle {
            Some(handle) => Some(handle.pid),
            None => None,
        }
    }

    /// Decides whether a process is to be created: the one the configuration
    /// resolves to while the supervisor is idle, none while it is running.
    pub fn start(&self, config: StartConfig) -> (decision: StartDecision)
        ensures
            decision@ == decide_start(self@, config@),
    {
        match &self.handle {
            Some(handle) => StartDecision::AlreadyRunning { pid: handle.pid },
            None => StartDecision::Spawn(config.plan()),
        }
    }

    /// Takes in what came of the attempt to create the process. A new handle
    /// is kept if none is held and handed back otherwise; a failure changes
    /// nothing.
    pub fn finish_start(
        &mut self,
        outcome: Result<ProcessHandle<H>, SpawnError>,
    ) -> (report: StartReport<H>)
        ensures
            (final(self)@, report) == record_outcome(old(self)@, outcome),
            report is Started ==> final(self).running(),
    {
        match outcome {
            Ok(handle) => {
                if self.handle.is_some() {
                    StartReport::Rejected(handle)
                } else {
                    let pid = handle.pid;
                    self.handle = Some(handle);
                    StartReport::Started { pid }
                }
            },
            Err(error) => StartReport::Failed(error),
        }
    }

    /// Takes the handle out and leaves the supervisor idle. The caller is to
    /// signal the process it is handed; `None` means there is nothing to
    /// signal.
    pub fn stop(&mut self) -> (released: Option<ProcessHandle<H>>)
        ensures
            (final(self)@, released) == release(old(self)@),
            !final(self).running(),
    {
        self.handle.take()
    }
}

} // verus!
