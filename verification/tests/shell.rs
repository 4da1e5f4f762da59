use jobshell::command::Action;
use jobshell::line::LineRead;
use jobshell::shell::{shell_loop, ShellAction, ShellEvent, ShellState};
use jobshell::signals::Disposition;

fn input(text: &str) -> ShellEvent {
    ShellEvent::Input(LineRead::Read { size: text.len(), text: text.to_string() })
}

fn run(words: &[&str]) -> ShellAction {
    ShellAction::RunJob(Action::SimpleCommand(words.iter().map(|w| w.to_string()).collect()))
}

#[test]
fn interpreter_first_shields_itself_from_the_signals() {
    assert_eq!(
        shell_loop(ShellState::Starting, ShellEvent::Started),
        Some((
            ShellState::ShieldingSignals,
            ShellAction::SetSignals { disposition: Disposition::Ignore }
        ))
    );
}

#[test]
fn interpreter_reads_once_the_signals_are_set() {
    assert_eq!(
        shell_loop(ShellState::ShieldingSignals, ShellEvent::SignalsSet),
        Some((ShellState::AwaitingLine, ShellAction::ReadLine))
    );
}

#[test]
fn interpreter_ends_when_the_signals_cannot_be_set() {
    assert_eq!(
        shell_loop(ShellState::ShieldingSignals, ShellEvent::SignalsRefused),
        Some((ShellState::Aborted, ShellAction::Abort))
    );
}

#[test]
fn line_with_a_command_starts_a_job() {
    assert_eq!(
        shell_loop(ShellState::AwaitingLine, input("ls -la /tmp\n")),
        Some((ShellState::RunningJob, run(&["ls", "-la", "/tmp"])))
    );
}

#[test]
fn line_is_parsed_after_its_line_break_is_stripped() {
    assert_eq!(
        shell_loop(ShellState::AwaitingLine, input("true\r\n")),
        Some((ShellState::RunningJob, run(&["true"])))
    );
    assert_eq!(
        shell_loop(ShellState::AwaitingLine, input("echo a \n")),
        Some((ShellState::RunningJob, run(&["echo", "a", ""])))
    );
}

#[test]
fn empty_line_leads_to_the_next_prompt() {
    assert_eq!(
        shell_loop(ShellState::AwaitingLine, input("\n")),
        Some((ShellState::AwaitingLine, ShellAction::ReadLine))
    );
}

#[test]
fn end_of_input_ends_the_loop_without_a_diagnostic() {
    assert_eq!(
        shell_loop(
            ShellState::AwaitingLine,
            ShellEvent::Input(LineRead::Read { size: 0, text: String::new() })
        ),
        Some((ShellState::Stopped, ShellAction::Stop { diagnostic: None }))
    );
}

#[test]
fn failed_read_ends_the_loop_with_its_description() {
    assert_eq!(
        shell_loop(
            ShellState::AwaitingLine,
            ShellEvent::Input(LineRead::Failed { description: "Input/output error".to_string() })
        ),
        Some((
            ShellState::Stopped,
            ShellAction::Stop { diagnostic: Some("Input/output error".to_string()) }
        ))
    );
}

#[test]
fn interpreter_prompts_again_when_a_job_returns() {
    assert_eq!(
        shell_loop(ShellState::RunningJob, ShellEvent::JobReturned),
        Some((ShellState::AwaitingLine, ShellAction::ReadLine))
    );
}

#[test]
fn interpreter_prompts_again_after_a_program_that_does_not_exist() {
    let (state, action) =
        shell_loop(ShellState::AwaitingLine, input("definitely-not-a-real-binary-xyz\n")).unwrap();
    assert_eq!(action, run(&["definitely-not-a-real-binary-xyz"]));
    assert_eq!(
        shell_loop(state, ShellEvent::JobReturned),
        Some((ShellState::AwaitingLine, ShellAction::ReadLine))
    );
}

#[test]
fn interpreter_prompts_again_after_a_failing_program() {
    let (state, action) = shell_loop(ShellState::AwaitingLine, input("false\n")).unwrap();
    assert_eq!(action, run(&["false"]));
    let (state, action) = shell_loop(state, ShellEvent::JobReturned).unwrap();
    assert_eq!((state, action), (ShellState::AwaitingLine, ShellAction::ReadLine));
    assert_eq!(
        shell_loop(state, input("true\n")),
        Some((ShellState::RunningJob, run(&["true"])))
    );
}

#[test]
fn whole_session_runs_each_command_and_stops_at_the_end() {
    let events = vec![
        ShellEvent::Started,
        ShellEvent::SignalsSet,
        input("ls\n"),
        ShellEvent::JobReturned,
        input("\n"),
        input("cat  file\n"),
        ShellEvent::JobReturned,
        ShellEvent::Input(LineRead::Read { size: 0, text: String::new() }),
    ];
    let mut state = ShellState::Starting;
    let mut actions = Vec::new();
    for event in events {
        let (next, action) = shell_loop(state, event).unwrap();
        actions.push(action);
        state = next;
    }
    assert_eq!(state, ShellState::Stopped);
    assert_eq!(
        actions,
        vec![
            ShellAction::SetSignals { disposition: Disposition::Ignore },
            ShellAction::ReadLine,
            run(&["ls"]),
            ShellAction::ReadLine,
            ShellAction::ReadLine,
            run(&["cat", "", "file"]),
            ShellAction::ReadLine,
            ShellAction::Stop { diagnostic: None },
        ]
    );
}

#[test]
fn event_out_of_place_is_refused() {
    assert_eq!(shell_loop(ShellState::Starting, ShellEvent::SignalsSet), None);
    assert_eq!(shell_loop(ShellState::Starting, input("ls\n")), None);
    assert_eq!(shell_loop(ShellState::ShieldingSignals, ShellEvent::Started), None);
    assert_eq!(shell_loop(ShellState::AwaitingLine, ShellEvent::JobReturned), None);
    assert_eq!(shell_loop(ShellState::RunningJob, input("ls\n")), None);
}

#[test]
fn stopped_interpreter_takes_no_event() {
    for state in [ShellState::Stopped, ShellState::Aborted] {
        assert_eq!(shell_loop(state, ShellEvent::Started), None);
        assert_eq!(shell_loop(state, ShellEvent::SignalsSet), None);
        assert_eq!(shell_loop(state, ShellEvent::SignalsRefused), None);
        assert_eq!(shell_loop(state, input("ls\n")), None);
        assert_eq!(shell_loop(state, ShellEvent::JobReturned), None);
    }
}
