//! What the job controller achieves: statements about every run of the
//! model in `world`, each with its proof.

use vstd::prelude::*;
use crate::job::{AbortCause, ChildStatus, ErrorKind, JobEvent, JobPhase, JobState, Role};
use crate::signals::Disposition;
use crate::world::{ChildProcess, Move, World};

verus! {

impl World {
    /// What holds of the child in every run.
    spec fn child_settled(self, c: ChildProcess) -> bool {
        &&& c.pid != self.own_group
        &&& c.state.role() == Some(Role::Child) || c.state == (JobState::Aborted {
            cause: AbortCause::SignalReset,
        }) || c.state == (JobState::Aborted { cause: AbortCause::PipeClose })
        &&& c.signals == Disposition::Default || c.state is ResettingSignals || c.state
            == (JobState::Aborted { cause: AbortCause::SignalReset })
        &&& match c.state {
            JobState::ResettingSignals { pipe_read, pipe_write } => self.pipe == Some(
                (pipe_read, pipe_write),
            ),
            JobState::DroppingWriteEnd { pipe_read, pipe_write } => self.pipe == Some(
                (pipe_read, pipe_write),
            ),
            JobState::AwaitingRelease { pipe_read } => self.is_read_end(pipe_read)
                && !c.holds_write,
            JobState::DroppingReadEnd { pipe_read } => {
                &&& self.is_read_end(pipe_read)
                &&& !c.holds_write
                &&& self.cut_short || self.shell_past_hand_over()
            },
            JobState::Launching => {
                &&& !c.holds_read
                &&& !c.holds_write
                &&& self.cut_short || self.shell_past_hand_over()
            },
            JobState::LaunchFailed { .. } => !c.holds_read && !c.holds_write,
            _ => true,
        }
    }

    /// The interpreter has neither end of the pipe open.
    spec fn shell_dropped_pipe(self) -> bool {
        !self.shell_holds_read && !self.shell_holds_write
    }

    /// The interpreter has handed the terminal over.
    spec fn shell_past_hand_over(self) -> bool {
        match self.shell {
            JobState::ClosingReadEnd { .. }
            | JobState::ClosingWriteEnd { .. }
            | JobState::Reaping { .. }
            | JobState::FindingOwnGroup { .. }
            | JobState::RestoringTerminal { .. }
            | JobState::Completed { .. } => true,
            JobState::Aborted { cause } => cause == AbortCause::PipeClose || cause
                == AbortCause::Wait || cause == AbortCause::TerminalRestore,
            _ => false,
        }
    }

    /// What holds of the interpreter in every run.
    spec fn shell_settled(self) -> bool {
        match self.shell {
            JobState::Idle | JobState::CreatingPipe | JobState::Abandoned => {
                &&& self.child is None
                &&& self.foreground == self.own_group
            },
            JobState::Forking { pipe_read, pipe_write } => {
                &&& self.child is None
                &&& self.foreground == self.own_group
                &&& self.pipe == Some((pipe_read, pipe_write))
                &&& pipe_read != pipe_write
                &&& self.shell_holds_write
            },
            JobState::AssigningGroup { child, pipe_read, pipe_write } => {
                &&& self.child matches Some(c) && c.pid == child
                &&& self.foreground == self.own_group
                &&& self.pipe == Some((pipe_read, pipe_write))
                &&& pipe_read != pipe_write
                &&& self.shell_holds_write
            },
            JobState::AssigningTerminal { child, pipe_read, pipe_write } => {
                &&& self.child matches Some(c) && c.pid == child && c.group == child
                &&& self.foreground == self.own_group
                &&& self.pipe == Some((pipe_read, pipe_write))
                &&& pipe_read != pipe_write
                &&& self.shell_holds_write
            },
            JobState::ClosingReadEnd { child, pipe_read, pipe_write } => {
                &&& self.child matches Some(c) && c.pid == child
                &&& self.handed_over()
                &&& self.pipe == Some((pipe_read, pipe_write))
                &&& pipe_read != pipe_write
                &&& self.shell_holds_write
            },
            JobState::ClosingWriteEnd { child, pipe_write } => {
                &&& self.child matches Some(c) && c.pid == child
                &&& self.handed_over()
                &&& self.is_write_end(pipe_write)
                &&& self.shell_holds_write
                &&& !self.shell_holds_read
            },
            JobState::Reaping { child } => {
                &&& self.child matches Some(c) && c.pid == child
                &&& self.handed_over()
                &&& self.shell_dropped_pipe()
            },
            JobState::FindingOwnGroup { child, status } => {
                &&& self.child matches Some(c) && c.pid == child && c.ended == Some(status)
                &&& self.handed_over()
                &&& self.shell_dropped_pipe()
            },
            JobState::RestoringTerminal { child, status, own_group } => {
                &&& self.child matches Some(c) && c.pid == child && c.ended == Some(status)
                &&& self.handed_over()
                &&& own_group == self.own_group
                &&& self.shell_dropped_pipe()
            },
            JobState::Completed { child, status } => {
                &&& self.child matches Some(c) && c.pid == child && c.ended == Some(status)
                &&& self.foreground == self.own_group
                &&& self.shell_dropped_pipe()
            },
            JobState::Aborted { cause } => match cause {
                AbortCause::PipeCreation => self.child is None && self.foreground
                    == self.own_group,
                AbortCause::GroupAssignment | AbortCause::TerminalHandOff => {
                    &&& self.child is Some
                    &&& self.foreground == self.own_group
                    &&& self.cut_short
                },
                AbortCause::PipeClose | AbortCause::Wait => self.handed_over(),
                AbortCause::TerminalRestore => {
                    &&& self.child matches Some(c) && c.ended is Some
                    &&& self.handed_over()
                },
                AbortCause::SignalReset => false,
            },
            _ => false,
        }
    }

    /// What holds in every run.
    spec fn settled(self) -> bool {
        &&& self.shell_settled()
        &&& self.child matches Some(c) ==> self.child_settled(c)
    }

    proof fn lemma_shell_move_settled(self, event: JobEvent)
        requires
            self.settled(),
            self.shell_moves(event) is Some,
        ensures
            self.shell_moves(event).unwrap().settled(),
    {
    }

    proof fn lemma_child_move_settled(self, event: JobEvent)
        requires
            self.settled(),
            self.child_moves(event) is Some,
        ensures
            self.child_moves(event).unwrap().settled(),
    {
    }

    proof fn lemma_child_end_settled(self, status: ChildStatus)
        requires
            self.settled(),
            self.child_ends(status) is Some,
        ensures
            self.child_ends(status).unwrap().settled(),
    {
    }

    proof fn lemma_run_settled(own_group: i32, moves: Seq<Move>)
        requires
            World::start(own_group).run(moves) is Some,
        ensures
            World::start(own_group).run(moves).unwrap().settled(),
            World::start(own_group).run(moves).unwrap().own_group == own_group,
        decreases moves.len(),
    {
        let start = World::start(own_group);
        if moves.len() > 0 {
            Self::lemma_run_settled(own_group, moves.drop_last());
            let before = start.run(moves.drop_last()).unwrap();
            match moves.last() {
                Move::Shell { event } => before.lemma_shell_move_settled(event),
                Move::Child { event } => before.lemma_child_move_settled(event),
                Move::ChildEnds { status } => before.lemma_child_end_settled(status),
            }
        }
    }
}

/// Whether a move reports a failed call, other than a call of the child that
/// was merely interrupted.
pub open spec fn reports_failure(m: Move) -> bool {
    match m {
        Move::Shell { event } => event is Failed,
        Move::Child { event } => event matches JobEvent::Failed { error } && error
            != ErrorKind::Interrupted,
        Move::ChildEnds { .. } => false,
    }
}

/// When the interpreter is back in its loop, the terminal is back with it.
///
/// In every run, once the interpreter's controller asks to return to the
/// loop, whether the job ran or no child could be created, the foreground
/// process group of the terminal is the interpreter's own. How the child
/// ended plays no part: the status is arbitrary.
pub proof fn terminal_returns_to_interpreter(own_group: i32, moves: Seq<Move>)
    requires
        World::start(own_group).run(moves) is Some,
    ensures
        ({
            let w = World::start(own_group).run(moves).unwrap();
            w.shell.pending() is Return ==> w.foreground == own_group
        }),
{
    World::lemma_run_settled(own_group, moves);
}

/// The program never runs before the hand-over is complete.
///
/// In every run in which the hand-shake is not cut short, a child that has
/// asked to become the program, and has not ended, leads its own process
/// group, and that group is the foreground process group of the terminal.
pub proof fn program_runs_in_foreground(own_group: i32, moves: Seq<Move>)
    requires
        World::start(own_group).run(moves) is Some,
        !World::start(own_group).run(moves).unwrap().cut_short,
    ensures
        ({
            let w = World::start(own_group).run(moves).unwrap();
            w.program_running() ==> w.handed_over()
        }),
{
    World::lemma_run_settled(own_group, moves);
}

/// A run in which no call fails, bar interrupted calls of the child, is
/// never cut short.
pub proof fn undisturbed_run_is_whole(own_group: i32, moves: Seq<Move>)
    requires
        World::start(own_group).run(moves) is Some,
        forall|i: int| 0 <= i < moves.len() ==> !reports_failure(#[trigger] moves[i]),
    ensures
        !World::start(own_group).run(moves).unwrap().cut_short,
    decreases moves.len(),
{
    if moves.len() > 0 {
        let earlier = moves.drop_last();
        assert forall|i: int| 0 <= i < earlier.len() implies !reports_failure(
            #[trigger] earlier[i],
        ) by {
            assert(earlier[i] == moves[i]);
        }
        undisturbed_run_is_whole(own_group, earlier);
        assert(!reports_failure(moves.last()));
    }
}

/// The terminal always has exactly one owner.
///
/// In every run the foreground process group of the terminal is the
/// interpreter's group or the child's process identifier, and these two
/// differ.
pub proof fn terminal_has_one_owner(own_group: i32, moves: Seq<Move>)
    requires
        World::start(own_group).run(moves) is Some,
    ensures
        ({
            let w = World::start(own_group).run(moves).unwrap();
            &&& w.foreground == own_group || (w.child matches Some(c) && w.foreground == c.pid)
            &&& w.child matches Some(c) ==> c.pid != own_group
        }),
{
    World::lemma_run_settled(own_group, moves);
}

/// The program starts with the job-control signals at their defaults.
///
/// In every run a child that has asked to become the program has reset the
/// disposition of the job-control signals, which it inherited as ignored.
pub proof fn program_starts_with_default_signals(own_group: i32, moves: Seq<Move>)
    requires
        World::start(own_group).run(moves) is Some,
    ensures
        ({
            let w = World::start(own_group).run(moves).unwrap();
            w.child matches Some(c) ==> (c.state is Launching ==> c.signals
                == Disposition::Default)
        }),
{
    World::lemma_run_settled(own_group, moves);
}

/// The pipe does not outlive the hand-shake.
///
/// In every run the interpreter has closed both ends of the pipe by the time
/// it waits for the child, and the child has closed both by the time it asks
/// to become the program: the program inherits neither.
pub proof fn pipe_is_gone_after_the_hand_shake(own_group: i32, moves: Seq<Move>)
    requires
        World::start(own_group).run(moves) is Some,
    ensures
        ({
            let w = World::start(own_group).run(moves).unwrap();
            &&& w.shell.phase() == Some(JobPhase::Reaping) || w.shell.phase() == Some(
                JobPhase::RestoringTerminal,
            ) || w.shell is Completed ==> !w.shell_holds_read && !w.shell_holds_write
            &&& w.child matches Some(c) ==> (c.state is Launching ==> !c.holds_read
                && !c.holds_write)
        }),
{
    World::lemma_run_settled(own_group, moves);
}

/// The two processes keep to their paths.
///
/// In every run the interpreter is never in a state of the child's path, and
/// the child is in a state of its own path or has aborted: it never goes
/// back to the interpreter's loop.
pub proof fn processes_keep_their_roles(own_group: i32, moves: Seq<Move>)
    requires
        World::start(own_group).run(moves) is Some,
    ensures
        ({
            let w = World::start(own_group).run(moves).unwrap();
            &&& w.shell.role() != Some(Role::Child)
            &&& w.child matches Some(c) ==> c.state.role() == Some(Role::Child)
                || c.state is Aborted
        }),
{
    World::lemma_run_settled(own_group, moves);
}

/// A run in which every call succeeds: the child gets as far as the pipe
/// before the parent has done anything, is released, runs the program and
/// ends with `status`.
pub open spec fn undisturbed_moves(
    own_group: i32,
    read_end: i32,
    write_end: i32,
    child: i32,
    status: ChildStatus,
) -> Seq<Move> {
    seq![
        Move::Shell { event: JobEvent::Launch },
        Move::Shell { event: JobEvent::PipeCreated { read_end, write_end } },
        Move::Shell { event: JobEvent::ForkedParent { child } },
        Move::Child { event: JobEvent::Succeeded },
        Move::Child { event: JobEvent::Succeeded },
        Move::Shell { event: JobEvent::Succeeded },
        Move::Shell { event: JobEvent::Succeeded },
        Move::Shell { event: JobEvent::Succeeded },
        Move::Shell { event: JobEvent::Succeeded },
        Move::Child { event: JobEvent::ReadReturned { count: 0 } },
        Move::Child { event: JobEvent::Succeeded },
        Move::ChildEnds { status },
        Move::Shell { event: JobEvent::Reaped { status } },
        Move::Shell { event: JobEvent::ProcessGroup { pgid: own_group } },
        Move::Shell { event: JobEvent::Succeeded },
    ]
}

impl World {
    /// One more move: the moves so far with `m` added, and the world after
    /// them, given the world `before` after the moves so far.
    proof fn lemma_run_on(self, moves: Seq<Move>, before: World, m: Move) -> (next: (
        Seq<Move>,
        World,
    ))
        requires
            self.run(moves) == Some(before),
            before.step(m) is Some,
        ensures
            next.0 == moves.push(m),
            self.run(next.0) == Some(next.1),
            before.step(m) == Some(next.1),
    {
        assert(moves.push(m).drop_last() =~= moves);
        (moves.push(m), before.step(m).unwrap())
    }
}

/// The model admits the job it is about.
///
/// The moves of `undisturbed_moves` are a run. When the child asks to become
/// the program the terminal has been handed over; at the end the job is
/// completed with the status the child ended with, and the terminal is back
/// with the interpreter.
pub proof fn undisturbed_job_completes(
    own_group: i32,
    read_end: i32,
    write_end: i32,
    child: i32,
    status: ChildStatus,
)
    requires
        read_end != write_end,
        child != own_group,
    ensures
        ({
            let moves = undisturbed_moves(own_group, read_end, write_end, child, status);
            let start = World::start(own_group);
            &&& start.run(moves.take(11)) matches Some(w) && w.program_running() && w.handed_over()
                && !w.cut_short
            &&& start.run(moves) matches Some(w) && w.shell == (JobState::Completed {
                child,
                status,
            }) && w.foreground == own_group && !w.cut_short
        }),
{
    let moves = undisturbed_moves(own_group, read_end, write_end, child, status);
    let start = World::start(own_group);
    let (sofar, w) = (Seq::<Move>::empty(), start);
    let (sofar, w) = start.lemma_run_on(sofar, w, moves[0]);
    let (sofar, w) = start.lemma_run_on(sofar, w, moves[1]);
    let (sofar, w) = start.lemma_run_on(sofar, w, moves[2]);
    let (sofar, w) = start.lemma_run_on(sofar, w, moves[3]);
    let (sofar, w) = start.lemma_run_on(sofar, w, moves[4]);
    let (sofar, w) = start.lemma_run_on(sofar, w, moves[5]);
    let (sofar, w) = start.lemma_run_on(sofar, w, moves[6]);
    let (sofar, w) = start.lemma_run_on(sofar, w, moves[7]);
    let (sofar, w) = start.lemma_run_on(sofar, w, moves[8]);
    let (sofar, w) = start.lemma_run_on(sofar, w, moves[9]);
    let (sofar, w) = start.lemma_run_on(sofar, w, moves[10]);
    assert(sofar =~= moves.take(11));
    let (sofar, w) = start.lemma_run_on(sofar, w, moves[11]);
    let (sofar, w) = start.lemma_run_on(sofar, w, moves[12]);
    let (sofar, w) = start.lemma_run_on(sofar, w, moves[13]);
    let (sofar, w) = start.lemma_run_on(sofar, w, moves[14]);
    assert(sofar =~= moves);
}

/// A run in which the child's read on the pipe fails while the parent has
/// not yet done anything for the child.
pub open spec fn moves_with_failed_read(read_end: i32, write_end: i32, child: i32) -> Seq<Move> {
    seq![
        Move::Shell { event: JobEvent::Launch },
        Move::Shell { event: JobEvent::PipeCreated { read_end, write_end } },
        Move::Shell { event: JobEvent::ForkedParent { child } },
        Move::Child { event: JobEvent::Succeeded },
        Move::Child { event: JobEvent::Succeeded },
        Move::Child { event: JobEvent::Failed { error: ErrorKind::Other } },
        Move::Child { event: JobEvent::Succeeded },
    ]
}

/// A run in which the parent cannot make the child the leader of a process
/// group, and dies.
pub open spec fn moves_with_failed_assignment(read_end: i32, write_end: i32, child: i32) -> Seq<
    Move,
> {
    seq![
        Move::Shell { event: JobEvent::Launch },
        Move::Shell { event: JobEvent::PipeCreated { read_end, write_end } },
        Move::Shell { event: JobEvent::ForkedParent { child } },
        Move::Shell { event: JobEvent::Failed { error: ErrorKind::Other } },
        Move::Child { event: JobEvent::Succeeded },
        Move::Child { event: JobEvent::Succeeded },
        Move::Child { event: JobEvent::ReadReturned { count: 0 } },
        Move::Child { event: JobEvent::Succeeded },
    ]
}

/// Where the hand-shake is cut short, the program can run without the
/// terminal.
///
/// The moves of `moves_with_failed_read` and of `moves_with_failed_assignment`
/// are runs, both are cut short, and both end with the child asking to become
/// the program while the terminal is still the interpreter's.
pub proof fn cut_short_run_launches_early(
    own_group: i32,
    read_end: i32,
    write_end: i32,
    child: i32,
)
    requires
        read_end != write_end,
        child != own_group,
    ensures
        ({
            let start = World::start(own_group);
            &&& start.run(moves_with_failed_read(read_end, write_end, child)) matches Some(w)
                && w.cut_short && w.program_running() && !w.handed_over()
            &&& start.run(moves_with_failed_assignment(read_end, write_end, child)) matches Some(w)
                && w.cut_short && w.program_running() && !w.handed_over()
        }),
{
    let start = World::start(own_group);
    {
        let moves = moves_with_failed_read(read_end, write_end, child);
        let (sofar, w) = (Seq::<Move>::empty(), start);
        let (sofar, w) = start.lemma_run_on(sofar, w, moves[0]);
        let (sofar, w) = start.lemma_run_on(sofar, w, moves[1]);
        let (sofar, w) = start.lemma_run_on(sofar, w, moves[2]);
        let (sofar, w) = start.lemma_run_on(sofar, w, moves[3]);
        let (sofar, w) = start.lemma_run_on(sofar, w, moves[4]);
        let (sofar, w) = start.lemma_run_on(sofar, w, moves[5]);
        let (sofar, w) = start.lemma_run_on(sofar, w, moves[6]);
        assert(sofar =~= moves);
    }
    {
        let moves = moves_with_failed_assignment(read_end, write_end, child);
        let (sofar, w) = (Seq::<Move>::empty(), start);
        let (sofar, w) = start.lemma_run_on(sofar, w, moves[0]);
        let (sofar, w) = start.lemma_run_on(sofar, w, moves[1]);
        let (sofar, w) = start.lemma_run_on(sofar, w, moves[2]);
        let (sofar, w) = start.lemma_run_on(sofar, w, moves[3]);
        let (sofar, w) = start.lemma_run_on(sofar, w, moves[4]);
        let (sofar, w) = start.lemma_run_on(sofar, w, moves[5]);
        let (sofar, w) = start.lemma_run_on(sofar, w, moves[6]);
        let (sofar, w) = start.lemma_run_on(sofar, w, moves[7]);
        assert(sofar =~= moves);
    }
}

} // verus!
