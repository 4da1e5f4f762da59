//! The interpreter's loop: read a line, build a command, run it in the
//! foreground, and start over.
//!
//! Like the job controller, the loop is a state machine that the caller
//! drives: it performs the action asked for and reports what happened.

use vstd::prelude::*;
use crate::command::{parse_line, shell_parse_line, Action};
use crate::line::{shell_read_line, LineRead};
use crate::signals::Disposition;

verus! {

/// Where the interpreter stands.
#[derive(Clone, Copy, Debug, PartialEq, Eq, Structural)]
pub enum ShellState {
    /// Nothing has happened yet.
    Starting,
    /// The job-control signals are being set to be ignored.
    ShieldingSignals,
    /// A line is being read.
    AwaitingLine,
    /// A job is running in the foreground.
    RunningJob,
    /// The input has ended, and the loop with it.
    Stopped,
    /// The job-control signals could not be set.
    Aborted,
}

/// What the caller reports to the loop.
#[derive(Clone, Debug, PartialEq, Eq)]
pub enum ShellEvent {
    /// The interpreter has been started.
    Started,
    /// The job-control signals were set as asked.
    SignalsSet,
    /// The job-control signals could not be set.
    SignalsRefused,
    /// A read from standard input returned.
    Input(LineRead),
    /// The job controller has returned.
    JobReturned,
}

/// What the loop asks the caller to do.
#[derive(Clone, Debug, PartialEq, Eq)]
pub enum ShellAction {
    /// Give every job-control signal this disposition.
    SetSignals { disposition: Disposition },
    /// Write the prompt, flush it, and read one line.
    ReadLine,
    /// Run this command as a foreground job.
    RunJob(Action),
    /// Leave the loop, successfully; first write `diagnostic` to standard
    /// error if there is one.
    Stop { diagnostic: Option<String> },
    /// End the interpreter: it cannot work without its signal settings.
    Abort,
}

/// Whether `event` is something that can be reported in `state`.
pub open spec fn shell_accepts(state: ShellState, event: ShellEvent) -> bool {
    match (state, event) {
        (ShellState::Starting, ShellEvent::Started) => true,
        (ShellState::ShieldingSignals, ShellEvent::SignalsSet) => true,
        (ShellState::ShieldingSignals, ShellEvent::SignalsRefused) => true,
        (ShellState::AwaitingLine, ShellEvent::Input(_)) => true,
        (ShellState::RunningJob, ShellEvent::JobReturned) => true,
        _ => false,
    }
}

/// The state that follows `state` on `event`.
///
/// A read that yields no line ends the loop. A line that holds no command
/// leads straight to the next read. Whatever a job did, the loop reads on
/// when it returns.
pub open spec fn shell_next(state: ShellState, event: ShellEvent) -> ShellState {
    match (state, event) {
        (ShellState::Starting, ShellEvent::Started) => ShellState::ShieldingSignals,
        (ShellState::ShieldingSignals, ShellEvent::SignalsSet) => ShellState::AwaitingLine,
        (ShellState::ShieldingSignals, ShellEvent::SignalsRefused) => ShellState::Aborted,
        (ShellState::AwaitingLine, ShellEvent::Input(read)) => match read.line() {
            None => ShellState::Stopped,
            Some(line) => match parse_line(line) {
                None => ShellState::AwaitingLine,
                Some(_) => ShellState::RunningJob,
            },
        },
        (ShellState::RunningJob, ShellEvent::JobReturned) => ShellState::AwaitingLine,
        _ => state,
    }
}

/// Whether `action` is what the loop asks for when `event` has taken it to
/// the state `next`.
pub open spec fn shell_asks(event: ShellEvent, next: ShellState, action: ShellAction) -> bool {
    match next {
        ShellState::Starting => false,
        ShellState::ShieldingSignals => action == (ShellAction::SetSignals {
            disposition: Disposition::Ignore,
        }),
        ShellState::AwaitingLine => action == ShellAction::ReadLine,
        ShellState::RunningJob => event matches ShellEvent::Input(read) && read.line() matches Some(
            line,
        ) && action matches ShellAction::RunJob(command) && parse_line(line) == Some(command@)
            && command.well_formed(),
        ShellState::Stopped => event matches ShellEvent::Input(read)
            && action matches ShellAction::Stop { diagnostic } && diagnostic.deep_view()
            == read.diagnostic(),
        ShellState::Aborted => action == ShellAction::Abort,
    }
}

/// Runs one step of the interpreter's loop: takes what the caller reports
/// and returns the next state with the action to perform now. The result is
/// `None` exactly where `event` cannot be reported in `state`.
pub fn shell_loop(state: ShellState, event: ShellEvent) -> (step: Option<
    (ShellState, ShellAction),
>)
    ensures
        step is Some <==> shell_accepts(state, event),
        step matches Some((next, action)) ==> next == shell_next(state, event) && shell_asks(
            event,
            next,
            action,
        ),
{
    match state {
        ShellState::Starting => match event {
            ShellEvent::Started => Some(
                (
                    ShellState::ShieldingSignals,
                    ShellAction::SetSignals { disposition: Disposition::Ignore },
                ),
            ),
            _ => None,
        },
        ShellState::ShieldingSignals => match event {
            ShellEvent::SignalsSet => Some((ShellState::AwaitingLine, ShellAction::ReadLine)),
            ShellEvent::SignalsRefused => Some((ShellState::Aborted, ShellAction::Abort)),
            _ => None,
        },
        ShellState::AwaitingLine => match event {
            ShellEvent::Input(read) => {
                let reply = shell_read_line(read);
                match reply.line {
                    None => Some(
                        (ShellState::Stopped, ShellAction::Stop { diagnostic: reply.diagnostic }),
                    ),
                    Some(line) => match shell_parse_line(line.as_str()) {
                        None => Some((ShellState::AwaitingLine, ShellAction::ReadLine)),
                        Some(command) => Some(
                            (ShellState::RunningJob, ShellAction::RunJob(command)),
                        ),
                    },
                }
            },
            _ => None,
        },
        ShellState::RunningJob => match event {
            ShellEvent::JobReturned => Some((ShellState::AwaitingLine, ShellAction::ReadLine)),
            _ => None,
        },
        ShellState::Stopped => None,
        ShellState::Aborted => None,
    }
}

/// Only the end of the input ends the loop.
///
/// The loop stops exactly when a read yields no line: at the end of the
/// input, or when the read fails. No job, however it went, stops it.
pub proof fn loop_stops_only_when_input_ends(state: ShellState, event: ShellEvent)
    requires
        shell_accepts(state, event),
    ensures
        shell_next(state, event) == ShellState::Stopped <==> state == ShellState::AwaitingLine
            && (event matches ShellEvent::Input(read) && read.line() is None),
        state == ShellState::RunningJob ==> shell_next(state, event) == ShellState::AwaitingLine,
{
}

} // verus!
