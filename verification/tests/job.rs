use jobshell::job::{
    shell_exec_simple_command, AbortCause, ChildStatus, ErrorKind, JobAction, JobEvent, JobPhase,
    JobState, Role, EXIT_LAUNCH_FAILED, EXIT_NOT_FOUND, TERMINAL,
};
use jobshell::signals::Disposition;

const READ_END: i32 = 3;
const WRITE_END: i32 = 4;
const CHILD: i32 = 4321;
const SHELL_GROUP: i32 = 1000;

/// Feeds `events` to the controller one by one, from `state`, and returns
/// the actions asked for and the state reached.
fn drive(mut state: JobState, events: &[JobEvent]) -> (Vec<JobAction>, JobState) {
    let mut actions = Vec::new();
    for event in events {
        let (next, action) = shell_exec_simple_command(state, *event)
            .unwrap_or_else(|| panic!("{:?} does not answer {:?}", event, state));
        assert_eq!(action, next.pending_action());
        actions.push(action);
        state = next;
    }
    (actions, state)
}

fn forking() -> JobState {
    JobState::Forking { pipe_read: READ_END, pipe_write: WRITE_END }
}

fn parent_events(status: ChildStatus) -> Vec<JobEvent> {
    vec![
        JobEvent::Launch,
        JobEvent::PipeCreated { read_end: READ_END, write_end: WRITE_END },
        JobEvent::ForkedParent { child: CHILD },
        JobEvent::Succeeded,
        JobEvent::Succeeded,
        JobEvent::Succeeded,
        JobEvent::Succeeded,
        JobEvent::Reaped { status },
        JobEvent::ProcessGroup { pgid: SHELL_GROUP },
        JobEvent::Succeeded,
    ]
}

fn child_events_until_launch() -> Vec<JobEvent> {
    vec![
        JobEvent::ForkedChild,
        JobEvent::Succeeded,
        JobEvent::Succeeded,
        JobEvent::ReadReturned { count: 0 },
        JobEvent::Succeeded,
    ]
}

#[test]
fn idle_controller_awaits_a_command() {
    assert_eq!(JobState::Idle.pending_action(), JobAction::AwaitCommand);
}

#[test]
fn terminal_is_standard_input() {
    assert_eq!(TERMINAL, 0);
}

#[test]
fn parent_hands_over_then_releases_then_waits_then_restores() {
    let (actions, end) = drive(JobState::Idle, &parent_events(ChildStatus::Exited { code: 0 }));
    assert_eq!(
        actions,
        vec![
            JobAction::CreatePipe,
            JobAction::Fork,
            JobAction::SetProcessGroup { pid: CHILD, pgid: CHILD },
            JobAction::SetForeground { terminal: 0, pgid: CHILD },
            JobAction::Close { fd: READ_END },
            JobAction::Close { fd: WRITE_END },
            JobAction::Wait { pid: CHILD },
            JobAction::GetProcessGroup,
            JobAction::SetForeground { terminal: 0, pgid: SHELL_GROUP },
            JobAction::Return { report: false },
        ]
    );
    assert_eq!(end, JobState::Completed { child: CHILD, status: ChildStatus::Exited { code: 0 } });
}

#[test]
fn write_end_is_closed_only_after_both_assignments() {
    let (actions, _) = drive(JobState::Idle, &parent_events(ChildStatus::Exited { code: 0 }));
    let place = |wanted: JobAction| actions.iter().position(|a| *a == wanted).unwrap();
    let release = place(JobAction::Close { fd: WRITE_END });
    assert!(place(JobAction::SetProcessGroup { pid: CHILD, pgid: CHILD }) < release);
    assert!(place(JobAction::SetForeground { terminal: 0, pgid: CHILD }) < release);
    assert!(release < place(JobAction::Wait { pid: CHILD }));
}

#[test]
fn child_resets_signals_waits_for_release_then_launches() {
    let (actions, end) = drive(forking(), &child_events_until_launch());
    assert_eq!(
        actions,
        vec![
            JobAction::SetSignals { disposition: Disposition::Default },
            JobAction::Close { fd: WRITE_END },
            JobAction::Read { fd: READ_END },
            JobAction::Close { fd: READ_END },
            JobAction::Execute,
        ]
    );
    assert_eq!(end, JobState::Launching);
}

#[test]
fn interrupted_read_is_tried_again() {
    let waiting = JobState::AwaitingRelease { pipe_read: READ_END };
    let interrupted = JobEvent::Failed { error: ErrorKind::Interrupted };
    let (actions, end) = drive(waiting, &[interrupted, interrupted, interrupted]);
    assert_eq!(actions, vec![JobAction::Read { fd: READ_END }; 3]);
    assert_eq!(end, waiting);
}

#[test]
fn end_of_stream_releases_the_child() {
    let waiting = JobState::AwaitingRelease { pipe_read: READ_END };
    assert_eq!(
        shell_exec_simple_command(waiting, JobEvent::ReadReturned { count: 0 }),
        Some((JobState::DroppingReadEnd { pipe_read: READ_END }, JobAction::Close { fd: READ_END }))
    );
}

#[test]
fn any_other_outcome_of_the_read_ends_the_wait() {
    let waiting = JobState::AwaitingRelease { pipe_read: READ_END };
    let on = JobState::DroppingReadEnd { pipe_read: READ_END };
    for event in [
        JobEvent::ReadReturned { count: 1 },
        JobEvent::Failed { error: ErrorKind::Other },
        JobEvent::Failed { error: ErrorKind::NotFound },
    ] {
        assert_eq!(
            shell_exec_simple_command(waiting, event),
            Some((on, JobAction::Close { fd: READ_END }))
        );
    }
}

#[test]
fn program_that_does_not_exist_exits_quietly_with_success() {
    assert_eq!(
        shell_exec_simple_command(
            JobState::Launching,
            JobEvent::Failed { error: ErrorKind::NotFound }
        ),
        Some((
            JobState::LaunchFailed { error: ErrorKind::NotFound },
            JobAction::Exit { status: 0, report: false }
        ))
    );
    assert_eq!(EXIT_NOT_FOUND, 0);
}

#[test]
fn any_other_launch_failure_is_reported_and_exits_with_one() {
    for error in [ErrorKind::Other, ErrorKind::Interrupted] {
        assert_eq!(
            shell_exec_simple_command(JobState::Launching, JobEvent::Failed { error }),
            Some((JobState::LaunchFailed { error }, JobAction::Exit { status: 1, report: true }))
        );
    }
    assert_eq!(EXIT_LAUNCH_FAILED, 1);
}

#[test]
fn interpreter_goes_on_after_a_program_that_does_not_exist() {
    // The child of a command that names no program leaves with status 0.
    let (actions, end) = drive(JobState::Idle, &parent_events(ChildStatus::Exited { code: 0 }));
    assert_eq!(actions.last(), Some(&JobAction::Return { report: false }));
    assert_eq!(end.completion_status(), Some(ChildStatus::Exited { code: 0 }));
}

#[test]
fn interpreter_goes_on_after_a_failing_program() {
    let (actions, end) = drive(JobState::Idle, &parent_events(ChildStatus::Exited { code: 1 }));
    assert_eq!(actions.last(), Some(&JobAction::Return { report: false }));
    assert_eq!(end, JobState::Completed { child: CHILD, status: ChildStatus::Exited { code: 1 } });
}

#[test]
fn terminal_is_taken_back_however_the_child_ended() {
    for status in [
        ChildStatus::Exited { code: 0 },
        ChildStatus::Exited { code: 1 },
        ChildStatus::Exited { code: 255 },
        ChildStatus::Signaled { signal: 2 },
        ChildStatus::Signaled { signal: 9 },
        ChildStatus::Other,
    ] {
        let (actions, end) = drive(
            JobState::Reaping { child: CHILD },
            &[
                JobEvent::Reaped { status },
                JobEvent::ProcessGroup { pgid: SHELL_GROUP },
                JobEvent::Succeeded,
            ],
        );
        assert_eq!(
            actions,
            vec![
                JobAction::GetProcessGroup,
                JobAction::SetForeground { terminal: TERMINAL, pgid: SHELL_GROUP },
                JobAction::Return { report: false },
            ]
        );
        assert_eq!(end, JobState::Completed { child: CHILD, status });
    }
}

#[test]
fn terminal_goes_back_to_the_group_that_was_reported() {
    for group in [1, 77, i32::MAX] {
        let (action, _) = drive(
            JobState::FindingOwnGroup { child: CHILD, status: ChildStatus::Other },
            &[JobEvent::ProcessGroup { pgid: group }],
        );
        assert_eq!(action, vec![JobAction::SetForeground { terminal: 0, pgid: group }]);
    }
}

#[test]
fn failed_fork_gives_the_command_up_and_returns_to_the_loop() {
    for error in [ErrorKind::Other, ErrorKind::Interrupted, ErrorKind::NotFound] {
        assert_eq!(
            shell_exec_simple_command(forking(), JobEvent::Failed { error }),
            Some((JobState::Abandoned, JobAction::Return { report: true }))
        );
    }
}

#[test]
fn failed_setup_call_of_the_parent_is_fatal() {
    let failed = JobEvent::Failed { error: ErrorKind::Other };
    let cases = [
        (JobState::CreatingPipe, AbortCause::PipeCreation),
        (
            JobState::AssigningGroup { child: CHILD, pipe_read: READ_END, pipe_write: WRITE_END },
            AbortCause::GroupAssignment,
        ),
        (
            JobState::AssigningTerminal { child: CHILD, pipe_read: READ_END, pipe_write: WRITE_END },
            AbortCause::TerminalHandOff,
        ),
        (
            JobState::ClosingReadEnd { child: CHILD, pipe_read: READ_END, pipe_write: WRITE_END },
            AbortCause::PipeClose,
        ),
        (JobState::ClosingWriteEnd { child: CHILD, pipe_write: WRITE_END }, AbortCause::PipeClose),
        (JobState::Reaping { child: CHILD }, AbortCause::Wait),
        (
            JobState::RestoringTerminal {
                child: CHILD,
                status: ChildStatus::Exited { code: 0 },
                own_group: SHELL_GROUP,
            },
            AbortCause::TerminalRestore,
        ),
    ];
    for (state, cause) in cases {
        assert_eq!(
            shell_exec_simple_command(state, failed),
            Some((JobState::Aborted { cause }, JobAction::Abort { cause }))
        );
    }
}

#[test]
fn failed_setup_call_of_the_child_is_fatal() {
    let failed = JobEvent::Failed { error: ErrorKind::Other };
    let cases = [
        (
            JobState::ResettingSignals { pipe_read: READ_END, pipe_write: WRITE_END },
            AbortCause::SignalReset,
        ),
        (
            JobState::DroppingWriteEnd { pipe_read: READ_END, pipe_write: WRITE_END },
            AbortCause::PipeClose,
        ),
        (JobState::DroppingReadEnd { pipe_read: READ_END }, AbortCause::PipeClose),
    ];
    for (state, cause) in cases {
        assert_eq!(
            shell_exec_simple_command(state, failed),
            Some((JobState::Aborted { cause }, JobAction::Abort { cause }))
        );
    }
}

#[test]
fn interruption_is_fatal_outside_the_wait_on_the_pipe() {
    let interrupted = JobEvent::Failed { error: ErrorKind::Interrupted };
    assert_eq!(
        shell_exec_simple_command(JobState::Reaping { child: CHILD }, interrupted),
        Some((
            JobState::Aborted { cause: AbortCause::Wait },
            JobAction::Abort { cause: AbortCause::Wait }
        ))
    );
}

#[test]
fn event_that_answers_no_pending_call_is_refused() {
    assert_eq!(shell_exec_simple_command(JobState::Idle, JobEvent::Succeeded), None);
    assert_eq!(shell_exec_simple_command(JobState::CreatingPipe, JobEvent::Launch), None);
    assert_eq!(shell_exec_simple_command(forking(), JobEvent::Succeeded), None);
    assert_eq!(
        shell_exec_simple_command(
            JobState::Reaping { child: CHILD },
            JobEvent::ReadReturned { count: 0 }
        ),
        None
    );
    assert_eq!(
        shell_exec_simple_command(
            JobState::FindingOwnGroup { child: CHILD, status: ChildStatus::Other },
            JobEvent::Failed { error: ErrorKind::Other }
        ),
        None
    );
    assert_eq!(shell_exec_simple_command(JobState::Launching, JobEvent::Succeeded), None);
}

#[test]
fn finished_controller_takes_no_event() {
    let events = [
        JobEvent::Launch,
        JobEvent::PipeCreated { read_end: READ_END, write_end: WRITE_END },
        JobEvent::ForkedParent { child: CHILD },
        JobEvent::ForkedChild,
        JobEvent::Succeeded,
        JobEvent::ProcessGroup { pgid: SHELL_GROUP },
        JobEvent::Reaped { status: ChildStatus::Other },
        JobEvent::ReadReturned { count: 0 },
        JobEvent::Failed { error: ErrorKind::Other },
    ];
    let finished = [
        JobState::Completed { child: CHILD, status: ChildStatus::Other },
        JobState::Abandoned,
        JobState::LaunchFailed { error: ErrorKind::NotFound },
        JobState::Aborted { cause: AbortCause::Wait },
    ];
    for state in finished {
        for event in events {
            assert_eq!(shell_exec_simple_command(state, event), None);
            assert_eq!(state.next(event), None);
        }
    }
}

#[test]
fn next_agrees_with_the_step() {
    let mut state = JobState::Idle;
    for event in parent_events(ChildStatus::Signaled { signal: 15 }) {
        let next = state.next(event).unwrap();
        assert_eq!(shell_exec_simple_command(state, event), Some((next, next.pending_action())));
        state = next;
    }
}

#[test]
fn parent_passes_through_the_phases_in_order() {
    let mut state = JobState::Idle;
    let mut phases = vec![state.job_phase().unwrap()];
    for event in parent_events(ChildStatus::Exited { code: 0 }) {
        state = state.next(event).unwrap();
        let phase = state.job_phase().unwrap();
        if phases.last() != Some(&phase) {
            phases.push(phase);
        }
    }
    assert_eq!(
        phases,
        vec![
            JobPhase::Idle,
            JobPhase::Spawning,
            JobPhase::SynchronizingChild,
            JobPhase::Reaping,
            JobPhase::RestoringTerminal,
            JobPhase::Idle,
        ]
    );
}

#[test]
fn child_passes_through_the_phases_in_order() {
    let mut state = forking();
    let mut phases = vec![state.job_phase().unwrap()];
    for event in child_events_until_launch() {
        state = state.next(event).unwrap();
        let phase = state.job_phase().unwrap();
        if phases.last() != Some(&phase) {
            phases.push(phase);
        }
    }
    assert_eq!(
        phases,
        vec![
            JobPhase::Spawning,
            JobPhase::SynchronizingChild,
            JobPhase::ChildRunningForeground,
        ]
    );
}

#[test]
fn process_about_to_end_is_in_no_phase() {
    assert_eq!(JobState::LaunchFailed { error: ErrorKind::NotFound }.job_phase(), None);
    assert_eq!(JobState::Aborted { cause: AbortCause::PipeClose }.job_phase(), None);
    assert_eq!(JobState::Abandoned.job_phase(), Some(JobPhase::Idle));
}

#[test]
fn role_is_settled_by_the_fork_and_kept() {
    assert_eq!(JobState::Idle.job_role(), None);
    assert_eq!(forking().job_role(), None);
    let mut state = forking().next(JobEvent::ForkedParent { child: CHILD }).unwrap();
    for event in &parent_events(ChildStatus::Other)[3..] {
        assert_eq!(state.job_role(), Some(Role::Parent));
        state = state.next(*event).unwrap();
    }
    assert_eq!(state.job_role(), Some(Role::Parent));
    let mut state = forking();
    for event in child_events_until_launch() {
        state = state.next(event).unwrap();
        assert_eq!(state.job_role(), Some(Role::Child));
    }
    let failed = state.next(JobEvent::Failed { error: ErrorKind::NotFound }).unwrap();
    assert_eq!(failed.job_role(), Some(Role::Child));
}

#[test]
fn child_never_asks_to_return_to_the_loop() {
    let mut state = forking();
    let mut events = child_events_until_launch();
    events.push(JobEvent::Failed { error: ErrorKind::Other });
    for event in events {
        let (next, action) = shell_exec_simple_command(state, event).unwrap();
        assert!(!matches!(action, JobAction::Return { .. } | JobAction::AwaitCommand));
        state = next;
    }
    assert_eq!(state.pending_action(), JobAction::Exit { status: 1, report: true });
}

#[test]
fn job_knows_its_child_from_the_fork_on() {
    assert_eq!(forking().child_pid(), None);
    let state = forking().next(JobEvent::ForkedParent { child: CHILD }).unwrap();
    assert_eq!(state.child_pid(), Some(CHILD));
    assert_eq!(JobState::Reaping { child: 7 }.child_pid(), Some(7));
    assert_eq!(JobState::Launching.child_pid(), None);
}

#[test]
fn process_group_is_the_child_once_it_is_set_up() {
    let assigning = forking().next(JobEvent::ForkedParent { child: CHILD }).unwrap();
    assert_eq!(assigning.process_group(), None);
    let assigned = assigning.next(JobEvent::Succeeded).unwrap();
    assert_eq!(assigned.process_group(), Some(CHILD));
    assert_eq!(assigned.process_group(), assigned.child_pid());
    assert_eq!(JobState::Idle.process_group(), None);
}

#[test]
fn completion_status_is_known_after_reaping() {
    let status = ChildStatus::Signaled { signal: 11 };
    assert_eq!(JobState::Reaping { child: CHILD }.completion_status(), None);
    let reaped = JobState::Reaping { child: CHILD }.next(JobEvent::Reaped { status }).unwrap();
    assert_eq!(reaped.completion_status(), Some(status));
    assert_eq!(JobState::Completed { child: CHILD, status }.completion_status(), Some(status));
}

#[test]
fn signals_are_reset_by_the_child_alone_and_first() {
    let (next, action) = shell_exec_simple_command(forking(), JobEvent::ForkedChild).unwrap();
    assert_eq!(next, JobState::ResettingSignals { pipe_read: READ_END, pipe_write: WRITE_END });
    assert_eq!(action, JobAction::SetSignals { disposition: Disposition::Default });
    let (actions, _) = drive(JobState::Idle, &parent_events(ChildStatus::Exited { code: 0 }));
    assert!(actions.iter().all(|a| !matches!(a, JobAction::SetSignals { .. })));
}
