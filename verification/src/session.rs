//! The state that exports share: whether cancellation has been requested,
//! and the one renderer process that may run at a time.
//!
//! The session decides; the caller acts. Each operation returns the process,
//! if any, that the caller has to terminate, and the caller reports back
//! when it has spawned a process or seen one exit.

use vstd::prelude::*;
use crate::error::ExportError;

verus! {

/// The name under which the caller knows a renderer process.
#[derive(Debug, Clone, Copy, PartialEq, Eq, Structural)]
pub struct ProcessId(pub u32);

/// How a run of the renderer ended.
#[derive(Debug, Clone, Copy, PartialEq, Eq, Structural)]
pub enum RenderOutcome {
    /// Cancellation was requested. The output, where the renderer left one,
    /// is to be removed.
    Cancelled { remove_output: bool },
    /// The renderer succeeded and its output is there.
    Completed,
    /// The renderer failed or left no output.
    Failed,
}

#[derive(Debug, Clone, Copy, PartialEq, Eq, Structural)]
pub struct ExportSession {
    pub cancel_requested: bool,
    pub active: Option<ProcessId>,
}

impl ExportSession {
    /// The process that the caller has to terminate when the session begins
    /// a start, stores another process, or is cancelled: the one in the slot.
    pub open spec fn to_terminate(self) -> Option<ProcessId> {
        self.active
    }

    /// The session after an export has begun: no request, no process.
    pub open spec fn begun(self) -> ExportSession {
        ExportSession { cancel_requested: false, active: None }
    }

    pub open spec fn registered(self, process: ProcessId) -> ExportSession {
        ExportSession { cancel_requested: self.cancel_requested, active: Some(process) }
    }

    pub open spec fn finished(self) -> ExportSession {
        ExportSession { cancel_requested: self.cancel_requested, active: None }
    }

    pub open spec fn cancelled(self) -> ExportSession {
        ExportSession { cancel_requested: true, active: self.active }
    }

    /// The session after a run has been judged: a request is taken back
    /// once it has been reported.
    pub open spec fn concluded(self) -> ExportSession {
        ExportSession { cancel_requested: false, active: self.active }
    }

    pub open spec fn outcome(self, exit_success: bool, output_exists: bool) -> RenderOutcome {
        if self.cancel_requested {
            RenderOutcome::Cancelled { remove_output: output_exists }
        } else if exit_success && output_exists {
            RenderOutcome::Completed
        } else {
            RenderOutcome::Failed
        }
    }

    /// A session with no request and no process.
    pub fn new() -> (session: ExportSession)
        ensures
            session == (ExportSession { cancel_requested: false, active: None }),
    {
        ExportSession { cancel_requested: false, active: None }
    }

    pub fn is_cancel_requested(&self) -> (requested: bool)
        ensures
            requested == self.cancel_requested,
    {
        self.cancel_requested
    }

    /// Begins the start of a renderer: takes back any request and empties
    /// the slot. Returns the process that held the slot, to be terminated
    /// before the new one is spawned.
    pub fn begin_start(&mut self) -> (stale: Option<ProcessId>)
        ensures
            *final(self) == old(self).begun(),
            stale == old(self).to_terminate(),
    {
        let stale = self.active;
        self.cancel_requested = false;
        self.active = None;
        stale
    }

    /// Stores the process that has been spawned. Returns the process that
    /// held the slot, to be terminated.
    pub fn register(&mut self, process: ProcessId) -> (displaced: Option<ProcessId>)
        ensures
            *final(self) == old(self).registered(process),
            displaced == old(self).to_terminate(),
    {
        let displaced = self.active;
        self.active = Some(process);
        displaced
    }

    /// Empties the slot once the wait for the process has returned, however
    /// it ended.
    pub fn finish_wait(&mut self)
        ensures
            *final(self) == old(self).finished(),
    {
        self.active = None;
    }

    /// Requests cancellation. Returns the process that holds the slot, to be
    /// terminated; it keeps the slot until its wait returns.
    pub fn cancel(&mut self) -> (running: Option<ProcessId>)
        ensures
            *final(self) == old(self).cancelled(),
            running == old(self).to_terminate(),
    {
        self.cancel_requested = true;
        self.active
    }

    /// Judges a run of the renderer by its exit status and by whether its
    /// output exists. A request for cancellation outweighs both and is taken
    /// back here, where it is reported, and nowhere else.
    pub fn conclude(&mut self, exit_success: bool, output_exists: bool) -> (outcome: RenderOutcome)
        ensures
            outcome == old(self).outcome(exit_success, output_exists),
            old(self).cancel_requested ==> *final(self) == old(self).concluded(),
            !old(self).cancel_requested ==> *final(self) == *old(self),
    {
        if self.cancel_requested {
            self.cancel_requested = false;
            RenderOutcome::Cancelled { remove_output: output_exists }
        } else if exit_success && output_exists {
            RenderOutcome::Completed
        } else {
            RenderOutcome::Failed
        }
    }
}

impl RenderOutcome {
    /// The error that an outcome is reported as, if it is one.
    pub fn into_result(self) -> (r: Result<(), ExportError>)
        ensures
            match self {
                RenderOutcome::Cancelled { .. } => r == Err::<(), ExportError>(
                    ExportError::CancellationRequested,
                ),
                RenderOutcome::Completed => r is Ok,
                RenderOutcome::Failed => r == Err::<(), ExportError>(
                    ExportError::ExternalProcessFailure,
                ),
            },
    {
        match self {
            RenderOutcome::Cancelled { .. } => Err(ExportError::CancellationRequested),
            RenderOutcome::Completed => Ok(()),
            RenderOutcome::Failed => Err(ExportError::ExternalProcessFailure),
        }
    }
}

/// Only one renderer holds the slot. Where a second export starts while the
/// process of a first is registered, the first is handed out for termination
/// and the slot is empty before the second is stored; the second then holds
/// the slot alone, and once its wait has returned the slot is empty.
pub proof fn law_second_start_replaces_first(
    session: ExportSession,
    first: ProcessId,
    second: ProcessId,
)
    requires
        session.active == Some(first),
    ensures
        session.to_terminate() == Some(first),
        session.begun().active is None,
        session.begun().to_terminate() is None,
        session.begun().registered(second).active == Some(second),
        session.begun().registered(second).finished().active is None,
        session.begun().registered(second).finished().finished().active is None,
{
}

/// A request for cancellation stays until a run is judged, outweighs the
/// renderer's own result there, and is gone afterwards: it does not reach
/// the next run.
pub proof fn law_request_is_reported_once(
    session: ExportSession,
    exit_success: bool,
    output_exists: bool,
)
    ensures
        session.cancelled().finished().outcome(exit_success, output_exists)
            == (RenderOutcome::Cancelled { remove_output: output_exists }),
        !session.cancelled().finished().concluded().cancel_requested,
        session.cancelled().active == session.active,
        !session.begun().cancel_requested,
{
}

} // verus!
