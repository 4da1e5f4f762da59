//! A model of the two processes of a job and of what the operating system
//! lets them see.
//!
//! The model knows one interpreter, at most one child, one pipe and one
//! terminal. A run is a sequence of moves. In a move one process completes
//! its pending system call with an outcome that the system can give, and its
//! controller advances; or the child process ends. Nothing here is
//! executable: the model exists to state what the controller achieves, which
//! the module `guarantees` does.

use vstd::prelude::*;
use crate::job::{AbortCause, ChildStatus, ErrorKind, JobAction, JobEvent, JobState};
use crate::signals::Disposition;

verus! {

/// The child process of a job.
pub struct ChildProcess {
    /// Its process identifier.
    pub pid: i32,
    /// The process group it belongs to.
    pub group: i32,
    /// The state of its controller.
    pub state: JobState,
    /// Whether it has the read end of the pipe open.
    pub holds_read: bool,
    /// Whether it has the write end of the pipe open.
    pub holds_write: bool,
    /// The disposition of the job-control signals in it.
    pub signals: Disposition,
    /// How it ended, once it has.
    pub ended: Option<ChildStatus>,
}

/// The interpreter, its child, and what they share.
pub struct World {
    /// The process group of the interpreter.
    pub own_group: i32,
    /// The foreground process group of the controlling terminal.
    pub foreground: i32,
    /// The state of the interpreter's controller.
    pub shell: JobState,
    /// The child, once there is one.
    pub child: Option<ChildProcess>,
    /// The read and the write descriptor of the pipe, once it exists.
    pub pipe: Option<(i32, i32)>,
    /// Whether the interpreter has the read end of the pipe open.
    pub shell_holds_read: bool,
    /// Whether the interpreter has the write end of the pipe open.
    pub shell_holds_write: bool,
    /// Whether the hand-shake was cut short: before the terminal was handed
    /// over, the child's read on the pipe failed for another reason than an
    /// interruption, or the interpreter died.
    pub cut_short: bool,
}

/// What can happen next.
pub enum Move {
    /// The interpreter's pending call completes with this outcome.
    Shell { event: JobEvent },
    /// The child's pending call completes with this outcome.
    Child { event: JobEvent },
    /// The child process ends.
    ChildEnds { status: ChildStatus },
}

impl World {
    /// The world before a job: the interpreter is idle and owns the
    /// terminal.
    pub open spec fn start(own_group: i32) -> World {
        World {
            own_group,
            foreground: own_group,
            shell: JobState::Idle,
            child: None,
            pipe: None,
            shell_holds_read: false,
            shell_holds_write: false,
            cut_short: false,
        }
    }

    /// Whether `fd` is the read end of the pipe.
    pub open spec fn is_read_end(self, fd: i32) -> bool {
        self.pipe matches Some(ends) && ends.0 == fd
    }

    /// Whether `fd` is the write end of the pipe.
    pub open spec fn is_write_end(self, fd: i32) -> bool {
        self.pipe matches Some(ends) && ends.1 == fd
    }

    /// Whether the system can answer the interpreter's call `action` with
    /// `event`.
    pub open spec fn answers_shell(self, action: JobAction, event: JobEvent) -> bool {
        match (action, event) {
            // The two descriptors of a pipe differ.
            (JobAction::CreatePipe, JobEvent::PipeCreated { read_end, write_end }) => read_end
                != write_end,
            // The interpreter is the parent of the fork, and the identifier of
            // a new process is that of no existing process group.
            (JobAction::Fork, JobEvent::ForkedParent { child }) => self.child is None && child
                != self.own_group,
            (JobAction::Fork, JobEvent::ForkedChild) => false,
            (JobAction::GetProcessGroup, JobEvent::ProcessGroup { pgid }) => pgid
                == self.own_group,
            // Waiting returns the status of a child that has ended.
            (JobAction::Wait { pid }, JobEvent::Reaped { status }) => self.child matches Some(c)
                && c.pid == pid && c.ended == Some(status),
            _ => true,
        }
    }

    /// Whether the system can answer the child's call `action` with `event`.
    pub open spec fn answers_child(self, action: JobAction, event: JobEvent) -> bool {
        match (action, event) {
            // Nothing is ever written to the pipe, so a read that returns has
            // met the end of the stream: no process has the write end open.
            (JobAction::Read { .. }, JobEvent::ReadReturned { count }) => count == 0
                && !self.shell_holds_write && (self.child matches Some(c) && !c.holds_write),
            _ => true,
        }
    }

    /// The world after the interpreter's pending call completed with
    /// `event`; `None` where that cannot happen.
    pub open spec fn shell_moves(self, event: JobEvent) -> Option<World> {
        let action = self.shell.pending();
        match self.shell.advance(event) {
            Some(next) if self.answers_shell(action, event) => Some(
                World {
                    shell: next,
                    foreground: match action {
                        JobAction::SetForeground { pgid, .. } if event == JobEvent::Succeeded => pgid,
                        _ => self.foreground,
                    },
                    pipe: match event {
                        JobEvent::PipeCreated { read_end, write_end } => Some(
                            (read_end, write_end),
                        ),
                        _ => self.pipe,
                    },
                    // A process that ends lets go of every descriptor.
                    shell_holds_read: match (action, event) {
                        (_, JobEvent::PipeCreated { .. }) => true,
                        (JobAction::Close { fd }, JobEvent::Succeeded) => self.shell_holds_read
                            && !self.is_read_end(fd),
                        _ => self.shell_holds_read && !(next is Aborted),
                    },
                    shell_holds_write: match (action, event) {
                        (_, JobEvent::PipeCreated { .. }) => true,
                        (JobAction::Close { fd }, JobEvent::Succeeded) => self.shell_holds_write
                            && !self.is_write_end(fd),
                        _ => self.shell_holds_write && !(next is Aborted),
                    },
                    child: match (action, event) {
                        // The child starts as a copy of the interpreter.
                        (_, JobEvent::ForkedParent { child }) => match self.shell.advance(
                            JobEvent::ForkedChild,
                        ) {
                            Some(state) => Some(
                                ChildProcess {
                                    pid: child,
                                    group: self.own_group,
                                    state,
                                    holds_read: self.shell_holds_read,
                                    holds_write: self.shell_holds_write,
                                    signals: Disposition::Ignore,
                                    ended: None,
                                },
                            ),
                            None => None,
                        },
                        (JobAction::SetProcessGroup { pid, pgid }, JobEvent::Succeeded) => match self.child {
                            Some(c) if c.pid == pid => Some(ChildProcess { group: pgid, ..c }),
                            _ => self.child,
                        },
                        _ => self.child,
                    },
                    cut_short: self.cut_short || next == (JobState::Aborted {
                        cause: AbortCause::GroupAssignment,
                    }) || next == (JobState::Aborted { cause: AbortCause::TerminalHandOff }),
                    ..self
                },
            ),
            _ => None,
        }
    }

    /// Whether the child's call `action`, answered with `event`, lets the
    /// child past the pipe although nobody released it: the read failed, and
    /// not because it was interrupted.
    pub open spec fn forces_gate(action: JobAction, event: JobEvent) -> bool {
        match (action, event) {
            (JobAction::Read { .. }, JobEvent::Failed { error }) => error
                != ErrorKind::Interrupted,
            _ => false,
        }
    }

    /// The world after the child's pending call completed with `event`;
    /// `None` where that cannot happen.
    pub open spec fn child_moves(self, event: JobEvent) -> Option<World> {
        match self.child {
            Some(c) if c.ended is None => {
                let action = c.state.pending();
                match c.state.advance(event) {
                    Some(next) if self.answers_child(action, event) => Some(
                        World {
                            child: Some(
                                ChildProcess {
                                    state: next,
                                    holds_read: match (action, event) {
                                        (JobAction::Close { fd }, JobEvent::Succeeded) => c.holds_read
                                            && !self.is_read_end(fd),
                                        _ => c.holds_read,
                                    },
                                    holds_write: match (action, event) {
                                        (JobAction::Close { fd }, JobEvent::Succeeded) => c.holds_write
                                            && !self.is_write_end(fd),
                                        _ => c.holds_write,
                                    },
                                    signals: match (action, event) {
                                        (
                                            JobAction::SetSignals { disposition },
                                            JobEvent::Succeeded,
                                        ) => disposition,
                                        _ => c.signals,
                                    },
                                    ..c
                                },
                            ),
                            cut_short: self.cut_short || (Self::forces_gate(action, event)
                                && !self.handed_over()),
                            ..self
                        },
                    ),
                    _ => None,
                }
            },
            _ => None,
        }
    }

    /// Whether a child in `state` can end with `status`: killed by a signal
    /// at any time; with any status once it has asked to become the program,
    /// or when it ends the interpreter's code by aborting; and with the exit
    /// status the controller asked for.
    pub open spec fn may_end(state: JobState, status: ChildStatus) -> bool {
        ||| status is Signaled
        ||| state is Launching
        ||| state is Aborted
        ||| state.pending() matches JobAction::Exit { status: code, .. } && status
            == (ChildStatus::Exited { code })
    }

    /// The world after the child ended with `status`; `None` where that
    /// cannot happen.
    pub open spec fn child_ends(self, status: ChildStatus) -> Option<World> {
        match self.child {
            Some(c) if c.ended is None && Self::may_end(c.state, status) => Some(
                World {
                    child: Some(
                        ChildProcess {
                            ended: Some(status),
                            holds_read: false,
                            holds_write: false,
                            ..c
                        },
                    ),
                    ..self
                },
            ),
            _ => None,
        }
    }

    /// The child leads its own process group, and that group has the
    /// terminal.
    pub open spec fn handed_over(self) -> bool {
        self.child matches Some(c) && c.group == c.pid && self.foreground == c.pid
    }

    /// The child has asked to become the program and has not ended.
    pub open spec fn program_running(self) -> bool {
        self.child matches Some(c) && c.state is Launching && c.ended is None
    }

    /// The world after `m`; `None` where `m` cannot happen.
    pub open spec fn step(self, m: Move) -> Option<World> {
        match m {
            Move::Shell { event } => self.shell_moves(event),
            Move::Child { event } => self.child_moves(event),
            Move::ChildEnds { status } => self.child_ends(status),
        }
    }

    /// The world after all of `moves`, one after another; `None` where one
    /// of them cannot happen.
    pub open spec fn run(self, moves: Seq<Move>) -> Option<World>
        decreases moves.len(),
    {
        if moves.len() == 0 {
            Some(self)
        } else {
            match self.run(moves.drop_last()) {
                Some(before) => before.step(moves.last()),
                None => None,
            }
        }
    }
}

} // verus!
