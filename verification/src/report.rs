//! What the interpreter tells the user on standard error.

use vstd::prelude::*;
use vstd::string::StringExecFns;

verus! {

/// The message for a command that was given up because no process could be
/// created. `description` is the system's account of the failure.
pub fn fork_failure_report(description: &str) -> (message: String)
    ensures
        message@ == "fork error: "@ + description@,
{
    String::from_str("fork error: ").concat(description)
}

/// The message of a child whose program could not be started, for any other
/// reason than that it does not exist. `description` is the system's account
/// of the failure.
pub fn launch_failure_report(description: &str) -> (message: String)
    ensures
        message@ == "Error: "@ + description@,
{
    String::from_str("Error: ").concat(description)
}

} // verus!
