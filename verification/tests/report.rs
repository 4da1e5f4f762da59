use jobshell::report::{fork_failure_report, launch_failure_report};

#[test]
fn fork_failure_names_the_cause() {
    assert_eq!(
        fork_failure_report("EAGAIN: Try again"),
        "fork error: EAGAIN: Try again"
    );
}

#[test]
fn launch_failure_names_the_cause() {
    assert_eq!(
        launch_failure_report("EACCES: Permission denied"),
        "Error: EACCES: Permission denied"
    );
}

#[test]
fn reports_keep_an_empty_description() {
    assert_eq!(fork_failure_report(""), "fork error: ");
    assert_eq!(launch_failure_report(""), "Error: ");
}
