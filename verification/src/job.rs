//! The job controller: one foreground job, from process creation to the
//! return of the terminal.
//!
//! The controller is a state machine. Each state has one pending action, a
//! system call for the caller to make; the caller reports the call's outcome
//! as an event, and the machine answers with the next state and its action.
//! A fork leaves two processes holding the same state: the parent reports
//! `ForkedParent`, the child `ForkedChild`, and from there the two follow
//! different paths.

use vstd::prelude::*;
use crate::signals::Disposition;

verus! {

/// The descriptor through which the controlling terminal is reached:
/// standard input.
pub const TERMINAL: i32 = 0;

/// The exit status of a child whose program could not be found.
pub const EXIT_NOT_FOUND: i32 = 0;

/// The exit status of a child whose program could not be started for any
/// other reason.
pub const EXIT_LAUNCH_FAILED: i32 = 1;

/// How a failed system call failed, as far as the controller cares.
#[derive(Clone, Copy, Debug, PartialEq, Eq, Structural)]
pub enum ErrorKind {
    /// The call was interrupted by a signal before it did anything.
    Interrupted,
    /// The file named does not exist.
    NotFound,
    /// Any other failure.
    Other,
}

/// How a child ended, as reported by waiting for it.
#[derive(Clone, Copy, Debug, PartialEq, Eq, Structural)]
pub enum ChildStatus {
    /// The child exited with this code.
    Exited { code: i32 },
    /// The child was terminated by this signal.
    Signaled { signal: i32 },
    /// The child changed state in some other way.
    Other,
}

/// The system call whose failure ended the interpreter.
#[derive(Clone, Copy, Debug, PartialEq, Eq, Structural)]
pub enum AbortCause {
    /// Creating the synchronisation pipe.
    PipeCreation,
    /// Making the child the leader of its own process group.
    GroupAssignment,
    /// Giving the terminal to the child's process group.
    TerminalHandOff,
    /// Closing an end of the synchronisation pipe.
    PipeClose,
    /// Waiting for the child.
    Wait,
    /// Taking the terminal back.
    TerminalRestore,
    /// Resetting the job-control signals in the child.
    SignalReset,
}

/// The coarse phases of a job cycle.
#[derive(Clone, Copy, Debug, PartialEq, Eq, Structural)]
pub enum JobPhase {
    /// No job is running.
    Idle,
    /// The pipe and the child process are being created.
    Spawning,
    /// Parent and child are arranging the hand-off of the terminal.
    SynchronizingChild,
    /// The child has asked to become the program.
    ChildRunningForeground,
    /// The parent is waiting for the child to end.
    Reaping,
    /// The parent is taking the terminal back.
    RestoringTerminal,
}

/// Which of the two processes of a job a state belongs to.
#[derive(Clone, Copy, Debug, PartialEq, Eq, Structural)]
pub enum Role {
    /// The interpreter.
    Parent,
    /// The process that becomes the program.
    Child,
}

/// The state of the job controller in one process.
#[derive(Clone, Copy, Debug, PartialEq, Eq, Structural)]
pub enum JobState {
    /// No job has been started.
    Idle,
    /// The synchronisation pipe is being created.
    CreatingPipe,
    /// The process is being forked.
    Forking { pipe_read: i32, pipe_write: i32 },
    /// Parent: the child is being made leader of its own process group.
    AssigningGroup { child: i32, pipe_read: i32, pipe_write: i32 },
    /// Parent: the terminal is being given to the child's group.
    AssigningTerminal { child: i32, pipe_read: i32, pipe_write: i32 },
    /// Parent: the read end of the pipe is being closed.
    ClosingReadEnd { child: i32, pipe_read: i32, pipe_write: i32 },
    /// Parent: the write end of the pipe is being closed, which releases the
    /// child.
    ClosingWriteEnd { child: i32, pipe_write: i32 },
    /// Parent: waiting for the child to end.
    Reaping { child: i32 },
    /// Parent: asking for the interpreter's own process group.
    FindingOwnGroup { child: i32, status: ChildStatus },
    /// Parent: the terminal is being given back to the interpreter's group.
    RestoringTerminal { child: i32, status: ChildStatus, own_group: i32 },
    /// Parent: the job cycle is over and the terminal is back.
    Completed { child: i32, status: ChildStatus },
    /// Parent: no child could be created; the command is given up.
    Abandoned,
    /// Child: the job-control signals are being reset to their defaults.
    ResettingSignals { pipe_read: i32, pipe_write: i32 },
    /// Child: the write end of the pipe, which the child never uses, is being
    /// closed.
    DroppingWriteEnd { pipe_read: i32, pipe_write: i32 },
    /// Child: blocked on the read end until the parent lets go.
    AwaitingRelease { pipe_read: i32 },
    /// Child: the read end of the pipe is being closed.
    DroppingReadEnd { pipe_read: i32 },
    /// Child: replacing the process image with the program.
    Launching,
    /// Child: the program could not be started.
    LaunchFailed { error: ErrorKind },
    /// A call failed that the controller cannot recover from.
    Aborted { cause: AbortCause },
}

/// What the caller reports back to the controller.
#[derive(Clone, Copy, Debug, PartialEq, Eq, Structural)]
pub enum JobEvent {
    /// A command is to be run.
    Launch,
    /// The pipe was created, with these two descriptors.
    PipeCreated { read_end: i32, write_end: i32 },
    /// The fork succeeded and this is the parent; `child` is the new process.
    ForkedParent { child: i32 },
    /// The fork succeeded and this is the child.
    ForkedChild,
    /// The call succeeded and has nothing to report.
    Succeeded,
    /// The process group of the calling process.
    ProcessGroup { pgid: i32 },
    /// The child ended.
    Reaped { status: ChildStatus },
    /// The read returned, with this many bytes.
    ReadReturned { count: usize },
    /// The call failed.
    Failed { error: ErrorKind },
}

/// What the controller asks the caller to do.
#[derive(Clone, Copy, Debug, PartialEq, Eq, Structural)]
pub enum JobAction {
    /// Nothing until a command is to be run.
    AwaitCommand,
    /// Create a pipe.
    CreatePipe,
    /// Fork the process.
    Fork,
    /// Put process `pid` into process group `pgid`.
    SetProcessGroup { pid: i32, pgid: i32 },
    /// Make `pgid` the foreground process group of the terminal open on
    /// descriptor `terminal`.
    SetForeground { terminal: i32, pgid: i32 },
    /// Close descriptor `fd`.
    Close { fd: i32 },
    /// Block until process `pid` ends.
    Wait { pid: i32 },
    /// Ask for the process group of the calling process.
    GetProcessGroup,
    /// Give every job-control signal this disposition.
    SetSignals { disposition: Disposition },
    /// Block reading from descriptor `fd`.
    Read { fd: i32 },
    /// Replace the process image with the command's program.
    Execute,
    /// Go back to the interpreter's loop; if `report` is set, first tell the
    /// user that no process could be created.
    Return { report: bool },
    /// Leave the process with this status; if `report` is set, first tell the
    /// user why the program could not be started.
    Exit { status: i32, report: bool },
    /// End the interpreter: a call failed that it cannot recover from.
    Abort { cause: AbortCause },
}

impl JobState {
    /// The action the caller has to perform in this state.
    pub open spec fn pending(self) -> JobAction {
        match self {
            JobState::Idle => JobAction::AwaitCommand,
            JobState::CreatingPipe => JobAction::CreatePipe,
            JobState::Forking { .. } => JobAction::Fork,
            JobState::AssigningGroup { child, .. } => JobAction::SetProcessGroup {
                pid: child,
                pgid: child,
            },
            JobState::AssigningTerminal { child, .. } => JobAction::SetForeground {
                terminal: TERMINAL,
                pgid: child,
            },
            JobState::ClosingReadEnd { pipe_read, .. } => JobAction::Close { fd: pipe_read },
            JobState::ClosingWriteEnd { pipe_write, .. } => JobAction::Close { fd: pipe_write },
            JobState::Reaping { child } => JobAction::Wait { pid: child },
            JobState::FindingOwnGroup { .. } => JobAction::GetProcessGroup,
            JobState::RestoringTerminal { own_group, .. } => JobAction::SetForeground {
                terminal: TERMINAL,
                pgid: own_group,
            },
            JobState::Completed { .. } => JobAction::Return { report: false },
            JobState::Abandoned => JobAction::Return { report: true },
            JobState::ResettingSignals { .. } => JobAction::SetSignals {
                disposition: Disposition::Default,
            },
            JobState::DroppingWriteEnd { pipe_write, .. } => JobAction::Close { fd: pipe_write },
            JobState::AwaitingRelease { pipe_read } => JobAction::Read { fd: pipe_read },
            JobState::DroppingReadEnd { pipe_read } => JobAction::Close { fd: pipe_read },
            JobState::Launching => JobAction::Execute,
            JobState::LaunchFailed { error } => JobAction::Exit {
                status: if error == ErrorKind::NotFound {
                    EXIT_NOT_FOUND
                } else {
                    EXIT_LAUNCH_FAILED
                },
                report: error != ErrorKind::NotFound,
            },
            JobState::Aborted { cause } => JobAction::Abort { cause },
        }
    }

    /// The system call whose failure is fatal in this state, if the state
    /// has one.
    pub open spec fn fatal_on_failure(self) -> Option<AbortCause> {
        match self {
            JobState::CreatingPipe => Some(AbortCause::PipeCreation),
            JobState::AssigningGroup { .. } => Some(AbortCause::GroupAssignment),
            JobState::AssigningTerminal { .. } => Some(AbortCause::TerminalHandOff),
            JobState::ClosingReadEnd { .. } => Some(AbortCause::PipeClose),
            JobState::ClosingWriteEnd { .. } => Some(AbortCause::PipeClose),
            JobState::Reaping { .. } => Some(AbortCause::Wait),
            JobState::RestoringTerminal { .. } => Some(AbortCause::TerminalRestore),
            JobState::ResettingSignals { .. } => Some(AbortCause::SignalReset),
            JobState::DroppingWriteEnd { .. } => Some(AbortCause::PipeClose),
            JobState::DroppingReadEnd { .. } => Some(AbortCause::PipeClose),
            _ => None,
        }
    }

    /// The state after `event`, or `None` where `event` is no outcome of the
    /// pending action.
    pub open spec fn advance(self, event: JobEvent) -> Option<JobState> {
        match (self, event) {
            (JobState::Idle, JobEvent::Launch) => Some(JobState::CreatingPipe),
            (JobState::CreatingPipe, JobEvent::PipeCreated { read_end, write_end }) => Some(
                JobState::Forking { pipe_read: read_end, pipe_write: write_end },
            ),
            (JobState::Forking { pipe_read, pipe_write }, JobEvent::ForkedParent { child }) => Some(
                JobState::AssigningGroup { child, pipe_read, pipe_write },
            ),
            (JobState::Forking { pipe_read, pipe_write }, JobEvent::ForkedChild) => Some(
                JobState::ResettingSignals { pipe_read, pipe_write },
            ),
            (JobState::Forking { .. }, JobEvent::Failed { .. }) => Some(JobState::Abandoned),
            (JobState::AssigningGroup { child, pipe_read, pipe_write }, JobEvent::Succeeded) => Some(
                JobState::AssigningTerminal { child, pipe_read, pipe_write },
            ),
            (
                JobState::AssigningTerminal { child, pipe_read, pipe_write },
                JobEvent::Succeeded,
            ) => Some(JobState::ClosingReadEnd { child, pipe_read, pipe_write }),
            (JobState::ClosingReadEnd { child, pipe_write, .. }, JobEvent::Succeeded) => Some(
                JobState::ClosingWriteEnd { child, pipe_write },
            ),
            (JobState::ClosingWriteEnd { child, .. }, JobEvent::Succeeded) => Some(
                JobState::Reaping { child },
            ),
            (JobState::Reaping { child }, JobEvent::Reaped { status }) => Some(
                JobState::FindingOwnGroup { child, status },
            ),
            (JobState::FindingOwnGroup { child, status }, JobEvent::ProcessGroup { pgid }) => Some(
                JobState::RestoringTerminal { child, status, own_group: pgid },
            ),
            (JobState::RestoringTerminal { child, status, .. }, JobEvent::Succeeded) => Some(
                JobState::Completed { child, status },
            ),
            (JobState::ResettingSignals { pipe_read, pipe_write }, JobEvent::Succeeded) => Some(
                JobState::DroppingWriteEnd { pipe_read, pipe_write },
            ),
            (JobState::DroppingWriteEnd { pipe_read, .. }, JobEvent::Succeeded) => Some(
                JobState::AwaitingRelease { pipe_read },
            ),
            (JobState::AwaitingRelease { pipe_read }, JobEvent::ReadReturned { .. }) => Some(
                JobState::DroppingReadEnd { pipe_read },
            ),
            (JobState::AwaitingRelease { pipe_read }, JobEvent::Failed { error }) => Some(
                if error == ErrorKind::Interrupted {
                    JobState::AwaitingRelease { pipe_read }
                } else {
                    JobState::DroppingReadEnd { pipe_read }
                },
            ),
            (JobState::DroppingReadEnd { .. }, JobEvent::Succeeded) => Some(JobState::Launching),
            (JobState::Launching, JobEvent::Failed { error }) => Some(
                JobState::LaunchFailed { error },
            ),
            (state, JobEvent::Failed { .. }) => match state.fatal_on_failure() {
                Some(cause) => Some(JobState::Aborted { cause }),
                None => None,
            },
            _ => None,
        }
    }

    /// The phase of the job cycle this state belongs to; `None` once the
    /// process is about to end.
    pub open spec fn phase(self) -> Option<JobPhase> {
        match self {
            JobState::Idle | JobState::Completed { .. } | JobState::Abandoned => Some(
                JobPhase::Idle,
            ),
            JobState::CreatingPipe | JobState::Forking { .. } => Some(JobPhase::Spawning),
            JobState::AssigningGroup { .. }
            | JobState::AssigningTerminal { .. }
            | JobState::ClosingReadEnd { .. }
            | JobState::ClosingWriteEnd { .. }
            | JobState::ResettingSignals { .. }
            | JobState::DroppingWriteEnd { .. }
            | JobState::AwaitingRelease { .. }
            | JobState::DroppingReadEnd { .. } => Some(JobPhase::SynchronizingChild),
            JobState::Launching => Some(JobPhase::ChildRunningForeground),
            JobState::Reaping { .. } => Some(JobPhase::Reaping),
            JobState::FindingOwnGroup { .. } | JobState::RestoringTerminal { .. } => Some(
                JobPhase::RestoringTerminal,
            ),
            JobState::LaunchFailed { .. } | JobState::Aborted { .. } => None,
        }
    }

    /// The process a state belongs to; `None` where that is not settled:
    /// before the fork, and in `Aborted`, which either process can reach.
    pub open spec fn role(self) -> Option<Role> {
        match self {
            JobState::AssigningGroup { .. }
            | JobState::AssigningTerminal { .. }
            | JobState::ClosingReadEnd { .. }
            | JobState::ClosingWriteEnd { .. }
            | JobState::Reaping { .. }
            | JobState::FindingOwnGroup { .. }
            | JobState::RestoringTerminal { .. }
            | JobState::Completed { .. }
            | JobState::Abandoned => Some(Role::Parent),
            JobState::ResettingSignals { .. }
            | JobState::DroppingWriteEnd { .. }
            | JobState::AwaitingRelease { .. }
            | JobState::DroppingReadEnd { .. }
            | JobState::Launching
            | JobState::LaunchFailed { .. } => Some(Role::Child),
            JobState::Idle
            | JobState::CreatingPipe
            | JobState::Forking { .. }
            | JobState::Aborted { .. } => None,
        }
    }

    /// The child process of the job, from the moment the parent knows it.
    pub open spec fn child(self) -> Option<i32> {
        match self {
            JobState::AssigningGroup { child, .. }
            | JobState::AssigningTerminal { child, .. }
            | JobState::ClosingReadEnd { child, .. }
            | JobState::ClosingWriteEnd { child, .. }
            | JobState::Reaping { child }
            | JobState::FindingOwnGroup { child, .. }
            | JobState::RestoringTerminal { child, .. }
            | JobState::Completed { child, .. } => Some(child),
            _ => None,
        }
    }

    /// The process group of the job, from the moment the parent has set it
    /// up: the group that the child leads, whose identifier is the child's.
    pub open spec fn group(self) -> Option<i32> {
        match self {
            JobState::AssigningGroup { .. } => None,
            _ => self.child(),
        }
    }

    /// How the child ended, from the moment the parent knows.
    pub open spec fn status(self) -> Option<ChildStatus> {
        match self {
            JobState::FindingOwnGroup { status, .. }
            | JobState::RestoringTerminal { status, .. }
            | JobState::Completed { status, .. } => Some(status),
            _ => None,
        }
    }
}

/// One step of the controller: the state after `event` and the action that
/// is then pending.
pub open spec fn job_step(state: JobState, event: JobEvent) -> Option<(JobState, JobAction)> {
    match state.advance(event) {
        Some(next) => Some((next, next.pending())),
        None => None,
    }
}

impl JobState {
    /// The action the caller has to perform in this state.
    pub fn pending_action(&self) -> (action: JobAction)
        ensures
            action == self.pending(),
    {
        match *self {
            JobState::Idle => JobAction::AwaitCommand,
            JobState::CreatingPipe => JobAction::CreatePipe,
            JobState::Forking { .. } => JobAction::Fork,
            JobState::AssigningGroup { child, .. } => JobAction::SetProcessGroup {
                pid: child,
                pgid: child,
            },
            JobState::AssigningTerminal { child, .. } => JobAction::SetForeground {
                terminal: TERMINAL,
                pgid: child,
            },
            JobState::ClosingReadEnd { pipe_read, .. } => JobAction::Close { fd: pipe_read },
            JobState::ClosingWriteEnd { pipe_write, .. } => JobAction::Close { fd: pipe_write },
            JobState::Reaping { child } => JobAction::Wait { pid: child },
            JobState::FindingOwnGroup { .. } => JobAction::GetProcessGroup,
            JobState::RestoringTerminal { own_group, .. } => JobAction::SetForeground {
                terminal: TERMINAL,
                pgid: own_group,
            },
            JobState::Completed { .. } => JobAction::Return { report: false },
            JobState::Abandoned => JobAction::Return { report: true },
            JobState::ResettingSignals { .. } => JobAction::SetSignals {
                disposition: Disposition::Default,
            },
            JobState::DroppingWriteEnd { pipe_write, .. } => JobAction::Close { fd: pipe_write },
            JobState::AwaitingRelease { pipe_read } => JobAction::Read { fd: pipe_read },
            JobState::DroppingReadEnd { pipe_read } => JobAction::Close { fd: pipe_read },
            JobState::Launching => JobAction::Execute,
            JobState::LaunchFailed { error } => match error {
                ErrorKind::NotFound => JobAction::Exit { status: EXIT_NOT_FOUND, report: false },
                _ => JobAction::Exit { status: EXIT_LAUNCH_FAILED, report: true },
            },
            JobState::Aborted { cause } => JobAction::Abort { cause },
        }
    }

    /// The phase of the job cycle this state belongs to; `None` once the
    /// process is about to end.
    pub fn job_phase(&self) -> (phase: Option<JobPhase>)
        ensures
            phase == self.phase(),
    {
        match *self {
            JobState::Idle | JobState::Completed { .. } | JobState::Abandoned => Some(
                JobPhase::Idle,
            ),
            JobState::CreatingPipe | JobState::Forking { .. } => Some(JobPhase::Spawning),
            JobState::Launching => Some(JobPhase::ChildRunningForeground),
            JobState::Reaping { .. } => Some(JobPhase::Reaping),
            JobState::FindingOwnGroup { .. } | JobState::RestoringTerminal { .. } => Some(
                JobPhase::RestoringTerminal,
            ),
            JobState::LaunchFailed { .. } | JobState::Aborted { .. } => None,
            _ => Some(JobPhase::SynchronizingChild),
        }
    }

    /// The process this state belongs to, where that is settled.
    pub fn job_role(&self) -> (role: Option<Role>)
        ensures
            role == self.role(),
    {
        match *self {
            JobState::Idle
            | JobState::CreatingPipe
            | JobState::Forking { .. }
            | JobState::Aborted { .. } => None,
            JobState::ResettingSignals { .. }
            | JobState::DroppingWriteEnd { .. }
            | JobState::AwaitingRelease { .. }
            | JobState::DroppingReadEnd { .. }
            | JobState::Launching
            | JobState::LaunchFailed { .. } => Some(Role::Child),
            _ => Some(Role::Parent),
        }
    }

    /// The child process of the job, from the moment the parent knows it.
    pub fn child_pid(&self) -> (pid: Option<i32>)
        ensures
            pid == self.child(),
    {
        match *self {
            JobState::AssigningGroup { child, .. }
            | JobState::AssigningTerminal { child, .. }
            | JobState::ClosingReadEnd { child, .. }
            | JobState::ClosingWriteEnd { child, .. }
            | JobState::Reaping { child }
            | JobState::FindingOwnGroup { child, .. }
            | JobState::RestoringTerminal { child, .. }
            | JobState::Completed { child, .. } => Some(child),
            _ => None,
        }
    }

    /// The process group of the job, from the moment the parent has set it
    /// up.
    pub fn process_group(&self) -> (pgid: Option<i32>)
        ensures
            pgid == self.group(),
    {
        match *self {
            JobState::AssigningGroup { .. } => None,
            _ => self.child_pid(),
        }
    }

    /// How the child ended, from the moment the parent knows.
    pub fn completion_status(&self) -> (status: Option<ChildStatus>)
        ensures
            status == self.status(),
    {
        match *self {
            JobState::FindingOwnGroup { status, .. }
            | JobState::RestoringTerminal { status, .. }
            | JobState::Completed { status, .. } => Some(status),
            _ => None,
        }
    }

    /// The state after a call that succeeded with nothing to report.
    fn after_success(self) -> (next: Option<JobState>)
        ensures
            next == self.advance(JobEvent::Succeeded),
    {
        match self {
            JobState::AssigningGroup { child, pipe_read, pipe_write } => Some(
                JobState::AssigningTerminal { child, pipe_read, pipe_write },
            ),
            JobState::AssigningTerminal { child, pipe_read, pipe_write } => Some(
                JobState::ClosingReadEnd { child, pipe_read, pipe_write },
            ),
            JobState::ClosingReadEnd { child, pipe_write, .. } => Some(
                JobState::ClosingWriteEnd { child, pipe_write },
            ),
            JobState::ClosingWriteEnd { child, .. } => Some(JobState::Reaping { child }),
            JobState::RestoringTerminal { child, status, .. } => Some(
                JobState::Completed { child, status },
            ),
            JobState::ResettingSignals { pipe_read, pipe_write } => Some(
                JobState::DroppingWriteEnd { pipe_read, pipe_write },
            ),
            JobState::DroppingWriteEnd { pipe_read, .. } => Some(
                JobState::AwaitingRelease { pipe_read },
            ),
            JobState::DroppingReadEnd { .. } => Some(JobState::Launching),
            _ => None,
        }
    }

    /// The state after a call that failed with `error`.
    fn after_failure(self, error: ErrorKind) -> (next: Option<JobState>)
        ensures
            next == self.advance(JobEvent::Failed { error }),
    {
        match self {
            JobState::Forking { .. } => Some(JobState::Abandoned),
            JobState::AwaitingRelease { pipe_read } => match error {
                ErrorKind::Interrupted => Some(JobState::AwaitingRelease { pipe_read }),
                _ => Some(JobState::DroppingReadEnd { pipe_read }),
            },
            JobState::Launching => Some(JobState::LaunchFailed { error }),
            JobState::CreatingPipe => Some(JobState::Aborted { cause: AbortCause::PipeCreation }),
            JobState::AssigningGroup { .. } => Some(
                JobState::Aborted { cause: AbortCause::GroupAssignment },
            ),
            JobState::AssigningTerminal { .. } => Some(
                JobState::Aborted { cause: AbortCause::TerminalHandOff },
            ),
            JobState::ClosingReadEnd { .. }
            | JobState::ClosingWriteEnd { .. }
            | JobState::DroppingWriteEnd { .. }
            | JobState::DroppingReadEnd { .. } => Some(
                JobState::Aborted { cause: AbortCause::PipeClose },
            ),
            JobState::Reaping { .. } => Some(JobState::Aborted { cause: AbortCause::Wait }),
            JobState::RestoringTerminal { .. } => Some(
                JobState::Aborted { cause: AbortCause::TerminalRestore },
            ),
            JobState::ResettingSignals { .. } => Some(
                JobState::Aborted { cause: AbortCause::SignalReset },
            ),
            _ => None,
        }
    }

    /// The state after `event`, or `None` where `event` is no outcome of the
    /// pending action.
    pub fn next(self, event: JobEvent) -> (next: Option<JobState>)
        ensures
            next == self.advance(event),
    {
        match event {
            JobEvent::Succeeded => self.after_success(),
            JobEvent::Failed { error } => self.after_failure(error),
            JobEvent::Launch => match self {
                JobState::Idle => Some(JobState::CreatingPipe),
                _ => None,
            },
            JobEvent::PipeCreated { read_end, write_end } => match self {
                JobState::CreatingPipe => Some(
                    JobState::Forking { pipe_read: read_end, pipe_write: write_end },
                ),
                _ => None,
            },
            JobEvent::ForkedParent { child } => match self {
                JobState::Forking { pipe_read, pipe_write } => Some(
                    JobState::AssigningGroup { child, pipe_read, pipe_write },
                ),
                _ => None,
            },
            JobEvent::ForkedChild => match self {
                JobState::Forking { pipe_read, pipe_write } => Some(
                    JobState::ResettingSignals { pipe_read, pipe_write },
                ),
                _ => None,
            },
            JobEvent::ProcessGroup { pgid } => match self {
                JobState::FindingOwnGroup { child, status } => Some(
                    JobState::RestoringTerminal { child, status, own_group: pgid },
                ),
                _ => None,
            },
            JobEvent::Reaped { status } => match self {
                JobState::Reaping { child } => Some(JobState::FindingOwnGroup { child, status }),
                _ => None,
            },
            JobEvent::ReadReturned { .. } => match self {
                JobState::AwaitingRelease { pipe_read } => Some(
                    JobState::DroppingReadEnd { pipe_read },
                ),
                _ => None,
            },
        }
    }
}

/// Runs one step of a foreground job: takes the outcome of the action that
/// was pending in `state` and returns the next state with the action to
/// perform now. The result is `None` exactly where `event` is no outcome of
/// the pending action; the state is then lost, as the job has left the
/// protocol.
pub fn shell_exec_simple_command(state: JobState, event: JobEvent) -> (step: Option<
    (JobState, JobAction),
>)
    ensures
        step == job_step(state, event),
{
    match state.next(event) {
        Some(next) => {
            let action = next.pending_action();
            Some((next, action))
        },
        None => None,
    }
}

/// Whether the job cycle passes from phase `from` straight to phase `to`.
pub open spec fn phase_follows(from: JobPhase, to: JobPhase) -> bool {
    match (from, to) {
        (JobPhase::Idle, JobPhase::Spawning) => true,
        (JobPhase::Spawning, JobPhase::SynchronizingChild) => true,
        // No child could be created: the command is given up.
        (JobPhase::Spawning, JobPhase::Idle) => true,
        (JobPhase::SynchronizingChild, JobPhase::Reaping) => true,
        (JobPhase::SynchronizingChild, JobPhase::ChildRunningForeground) => true,
        (JobPhase::Reaping, JobPhase::RestoringTerminal) => true,
        (JobPhase::RestoringTerminal, JobPhase::Idle) => true,
        _ => false,
    }
}

/// A step never leaves the job cycle.
///
/// A state that accepts an event belongs to a phase, and the state that
/// follows belongs to the same phase or to one that follows it in the cycle,
/// unless the process is about to end.
pub proof fn steps_follow_the_cycle(state: JobState, event: JobEvent)
    requires
        state.advance(event) is Some,
    ensures
        state.phase() is Some,
        state.advance(event).unwrap().phase() matches Some(to) ==> to == state.phase().unwrap()
            || phase_follows(state.phase().unwrap(), to),
{
}

/// A step never changes sides.
///
/// Once a state belongs to the parent or to the child, every state that
/// follows belongs to the same process, or the process has aborted.
pub proof fn steps_keep_the_role(state: JobState, event: JobEvent)
    requires
        state.advance(event) is Some,
        state.role() is Some,
    ensures
        state.advance(event).unwrap().role() == state.role() || state.advance(
            event,
        ).unwrap() is Aborted,
{
}

/// Only the child touches the signals.
///
/// The controller asks for a change of the job-control signals in one state
/// only: in the child, straight after the fork, and then for their defaults.
/// The parent keeps what the interpreter set when it started.
pub proof fn only_the_child_resets_signals(state: JobState)
    ensures
        state.pending() is SetSignals <==> state is ResettingSignals,
        state.pending() is SetSignals ==> state.role() == Some(Role::Child) && state.pending()
            == (JobAction::SetSignals { disposition: Disposition::Default }),
        state is Forking ==> state.advance(JobEvent::ForkedChild).unwrap() is ResettingSignals,
{
}

/// The terminal is taken back however the child ended.
///
/// Whatever status waiting for the child reports, the parent next asks for
/// its own process group, then gives the terminal to exactly that group, and
/// completes the job with the status reported once that call succeeds.
pub proof fn reaping_leads_to_restoration(child: i32, status: ChildStatus, own_group: i32)
    ensures
        job_step(JobState::Reaping { child }, JobEvent::Reaped { status }) == Some(
            (JobState::FindingOwnGroup { child, status }, JobAction::GetProcessGroup),
        ),
        job_step(
            JobState::FindingOwnGroup { child, status },
            JobEvent::ProcessGroup { pgid: own_group },
        ) == Some(
            (
                JobState::RestoringTerminal { child, status, own_group },
                JobAction::SetForeground { terminal: TERMINAL, pgid: own_group },
            ),
        ),
        job_step(JobState::RestoringTerminal { child, status, own_group }, JobEvent::Succeeded)
            == Some((JobState::Completed { child, status }, JobAction::Return { report: false })),
{
}

/// The child is released by the end of the stream and by nothing less.
///
/// While it waits on the pipe, an interrupted read leaves the child waiting
/// with the same read pending; any other outcome lets it go on to close the
/// pipe.
pub proof fn only_interruption_keeps_child_waiting(pipe_read: i32, event: JobEvent)
    requires
        (JobState::AwaitingRelease { pipe_read }).advance(event) is Some,
    ensures
        ({
            let next = (JobState::AwaitingRelease { pipe_read }).advance(event).unwrap();
            if event == (JobEvent::Failed { error: ErrorKind::Interrupted }) {
                next == (JobState::AwaitingRelease { pipe_read })
            } else {
                next == (JobState::DroppingReadEnd { pipe_read })
            }
        }),
{
}

} // verus!
